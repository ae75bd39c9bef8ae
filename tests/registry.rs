use student_registry::form::{field_kind, stash_path, FieldKind, FormError, FormState, NewStudent, TextField};
use student_registry::number::parse_i32;
use student_registry::record::{stamp_row, stamp_row_now, Timestamp};
use student_registry::reply::{created_reply, creation_step, failure_reply, Action, Event, Failure};
use student_registry::role::created_by_label;
use student_registry::stash::FileStash;
use student_registry::store::{RecordStore, StoreError};

fn request(name: &str, code: i32) -> NewStudent {
    NewStudent {
        full_name: name.to_string(),
        email: format!("{}@example.com", name),
        course: "CS".to_string(),
        age: 20,
        created_by: code,
    }
}

fn at(secs: i64) -> Timestamp {
    Timestamp { secs, nanos: 0 }
}

#[test]
fn role_labels_are_three_way() {
    assert_eq!(created_by_label(1), "Admin");
    assert_eq!(created_by_label(2), "SuperAdmin");
    assert_eq!(created_by_label(0), "Unknown");
    assert_eq!(created_by_label(-1), "Unknown");
    assert_eq!(created_by_label(3), "Unknown");
    assert_eq!(created_by_label(i32::MAX), "Unknown");
    assert_eq!(created_by_label(i32::MIN), "Unknown");
}

#[test]
fn parses_decimal_integers() {
    assert_eq!(parse_i32("30"), Some(30));
    assert_eq!(parse_i32("+7"), Some(7));
    assert_eq!(parse_i32("-42"), Some(-42));
    assert_eq!(parse_i32("007"), Some(7));
    assert_eq!(parse_i32("2147483647"), Some(i32::MAX));
    assert_eq!(parse_i32("-2147483648"), Some(i32::MIN));
    assert_eq!(parse_i32("0000000000002147483647"), Some(i32::MAX));
}

#[test]
fn rejects_malformed_integers() {
    assert_eq!(parse_i32(""), None);
    assert_eq!(parse_i32("-"), None);
    assert_eq!(parse_i32("+"), None);
    assert_eq!(parse_i32("not-a-number"), None);
    assert_eq!(parse_i32(" 30"), None);
    assert_eq!(parse_i32("30 "), None);
    assert_eq!(parse_i32("3.0"), None);
    assert_eq!(parse_i32("2147483648"), None);
    assert_eq!(parse_i32("-2147483649"), None);
    assert_eq!(parse_i32("99999999999999999999"), None);
    assert_eq!(parse_i32("--1"), None);
}

#[test]
fn classifies_field_names() {
    assert_eq!(field_kind("full_name"), FieldKind::Text(TextField::FullName));
    assert_eq!(field_kind("email"), FieldKind::Text(TextField::Email));
    assert_eq!(field_kind("course"), FieldKind::Text(TextField::Course));
    assert_eq!(field_kind("age"), FieldKind::Text(TextField::Age));
    assert_eq!(field_kind("created_by"), FieldKind::Text(TextField::CreatedBy));
    assert_eq!(field_kind("pdf_file"), FieldKind::Upload);
    assert_eq!(field_kind("ip_address"), FieldKind::Ignored);
    assert_eq!(field_kind("reg_time"), FieldKind::Ignored);
    assert_eq!(field_kind("id"), FieldKind::Ignored);
    assert_eq!(field_kind("Full_name"), FieldKind::Ignored);
    assert_eq!(field_kind(""), FieldKind::Ignored);
}

#[test]
fn stash_paths_use_the_declared_name() {
    assert_eq!(stash_path(Some("transcript.pdf")), "uploads/transcript.pdf");
    assert_eq!(stash_path(None), "uploads/upload.pdf");
    assert_eq!(stash_path(Some("")), "uploads/");
}

#[test]
fn multipart_scenario_with_file() {
    let mut form = FormState::new();
    assert_eq!(form.accept_text(TextField::FullName, "Ada"), Ok(()));
    assert_eq!(form.accept_text(TextField::Email, "ada@example.com"), Ok(()));
    assert_eq!(form.accept_text(TextField::Course, "CS"), Ok(()));
    assert_eq!(form.accept_text(TextField::Age, "30"), Ok(()));
    assert_eq!(form.accept_text(TextField::CreatedBy, "2"), Ok(()));
    let path = form.accept_upload(Some("transcript.pdf"));
    assert_eq!(path, "uploads/transcript.pdf");

    let (student, pdf) = match form.finish() {
        Ok(v) => v,
        Err(e) => panic!("form refused: {:?}", e),
    };
    assert_eq!(creation_step(Event::FormReady { has_upload: pdf.is_some() }), Action::WriteFile);

    let mut stash = FileStash::new();
    let bytes = b"%PDF-1.4...".to_vec();
    assert!(!stash.put(path.clone(), bytes.clone()));
    assert_eq!(creation_step(Event::FileWritten), Action::InsertRow);

    let row = stamp_row(student, pdf, "127.0.0.1", at(1_700_000_000));
    let mut store = RecordStore::new();
    assert_eq!(store.insert(row), Ok(1));
    assert_eq!(creation_step(Event::Inserted), Action::Succeed);
    let reply = created_reply();
    assert_eq!(reply.status, 200);
    assert_eq!(reply.body, "Student added with file");

    let listed = store.list();
    assert_eq!(listed.len(), 1);
    let ada = &listed[0];
    assert_eq!(ada.id, 1);
    assert_eq!(ada.full_name, "Ada");
    assert_eq!(ada.email, "ada@example.com");
    assert_eq!(ada.course, "CS");
    assert_eq!(ada.age, 30);
    assert_eq!(ada.created_by, "SuperAdmin");
    assert_eq!(ada.pdf_file.as_deref(), Some("uploads/transcript.pdf"));
    assert_eq!(ada.ip_address.as_deref(), Some("127.0.0.1"));
    assert_eq!(ada.reg_time, at(1_700_000_000));
    assert_eq!(stash.get(&path), Some(bytes));
}

#[test]
fn non_numeric_age_is_a_client_error() {
    let mut form = FormState::new();
    assert_eq!(form.accept_text(TextField::Age, "not-a-number"), Err(FormError::InvalidNumber(TextField::Age)));
    assert_eq!(form.age, None);
    let action = creation_step(Event::FormRejected(FormError::InvalidNumber(TextField::Age)));
    assert_eq!(action, Action::Fail(Failure::Client(FormError::InvalidNumber(TextField::Age))));
    let reply = failure_reply(Failure::Client(FormError::InvalidNumber(TextField::Age)));
    assert_eq!(reply.status, 400);
    assert_eq!(reply.body, "Not a whole number: age");
}

#[test]
fn non_numeric_role_is_a_client_error() {
    let mut form = FormState::new();
    assert_eq!(form.accept_text(TextField::CreatedBy, "admin"), Err(FormError::InvalidNumber(TextField::CreatedBy)));
    assert_eq!(form.created_by, None);
}

#[test]
fn unreadable_store_on_listing_is_a_server_error() {
    let reply = failure_reply(Failure::StoreRead);
    assert_eq!(reply.status, 500);
    assert_eq!(reply.body, "Failed to list students");
}

#[test]
fn failure_replies_name_the_cause() {
    let missing = failure_reply(Failure::Client(FormError::MissingField(TextField::Email)));
    assert_eq!(missing.status, 400);
    assert_eq!(missing.body, "Missing field: email");
    let file = failure_reply(Failure::FileWrite);
    assert_eq!(file.status, 500);
    assert_eq!(file.body, "Failed to store file");
    let insert = failure_reply(Failure::StoreWrite);
    assert_eq!(insert.status, 500);
    assert_eq!(insert.body, "Failed to add student");
}

#[test]
fn missing_fields_are_reported_in_order() {
    let form = FormState::new();
    assert!(matches!(form.finish(), Err(FormError::MissingField(TextField::FullName))));

    let mut form = FormState::new();
    form.accept_text(TextField::FullName, "Ada").unwrap();
    form.accept_text(TextField::Email, "ada@example.com").unwrap();
    form.accept_text(TextField::Course, "CS").unwrap();
    form.accept_text(TextField::CreatedBy, "1").unwrap();
    assert!(matches!(form.finish(), Err(FormError::MissingField(TextField::Age))));
}

#[test]
fn later_field_values_replace_earlier_ones() {
    let mut form = FormState::new();
    form.accept_text(TextField::FullName, "Ada").unwrap();
    form.accept_text(TextField::FullName, "Grace").unwrap();
    form.accept_text(TextField::Age, "30").unwrap();
    form.accept_text(TextField::Age, "31").unwrap();
    assert_eq!(form.full_name.as_deref(), Some("Grace"));
    assert_eq!(form.age, Some(31));
}

#[test]
fn form_without_upload_has_no_pdf_path() {
    let mut form = FormState::new();
    form.accept_text(TextField::FullName, "Bo").unwrap();
    form.accept_text(TextField::Email, "bo@example.com").unwrap();
    form.accept_text(TextField::Course, "Math").unwrap();
    form.accept_text(TextField::Age, "19").unwrap();
    form.accept_text(TextField::CreatedBy, "7").unwrap();
    let (student, pdf) = match form.finish() {
        Ok(v) => v,
        Err(e) => panic!("form refused: {:?}", e),
    };
    assert!(pdf.is_none());
    assert_eq!(creation_step(Event::FormReady { has_upload: false }), Action::InsertRow);
    let row = stamp_row(student, pdf, "10.0.0.5", at(5));
    assert_eq!(row.created_by, "Unknown");
    assert_eq!(row.pdf_file, None);
    assert_eq!(row.age, 19);
}

#[test]
fn server_fields_come_from_the_service() {
    let window_start = at(100);
    let now = Timestamp { secs: 150, nanos: 5 };
    let window_end = at(200);
    let row = stamp_row(request("Cy", 1), None, "192.168.1.9", now);
    assert!(window_start.is_not_after(&row.reg_time));
    assert!(row.reg_time.is_not_after(&window_end));
    assert_eq!(row.ip_address.as_deref(), Some("192.168.1.9"));
    assert_eq!(row.created_by, "Admin");
}

#[test]
fn stamping_with_the_clock_lies_in_the_window() {
    let before = now_timestamp();
    let row = stamp_row_now(request("Di", 2), None, "::1");
    let after = now_timestamp();
    assert!(before.is_not_after(&row.reg_time));
    assert!(row.reg_time.is_not_after(&after));
    assert!(row.reg_time.nanos < 1_000_000_000);
    assert!(row.reg_time.secs > 1_600_000_000);
    assert_eq!(row.ip_address.as_deref(), Some("::1"));
}

fn now_timestamp() -> Timestamp {
    let now = chrono::Utc::now();
    Timestamp { secs: now.timestamp(), nanos: now.timestamp_subsec_nanos() }
}

#[test]
fn timestamps_compare_by_instant() {
    assert!(at(1).is_not_after(&at(1)));
    assert!(Timestamp { secs: 1, nanos: 999_999_999 }.is_not_after(&at(2)));
    assert!(!at(2).is_not_after(&Timestamp { secs: 1, nanos: 999_999_999 }));
    assert!(!Timestamp { secs: -1, nanos: 5 }.is_not_after(&Timestamp { secs: -1, nanos: 4 }));
}

#[test]
fn listing_holds_every_insert_once() {
    let mut store = RecordStore::new();
    assert_eq!(store.list().len(), 0);
    let names = ["A", "B", "C", "D", "E"];
    for (k, name) in names.iter().enumerate() {
        let row = stamp_row(request(name, k as i32), None, "127.0.0.1", at(k as i64));
        assert_eq!(store.insert(row), Ok(k as i32 + 1));
    }
    let listed = store.list();
    assert_eq!(listed.len(), names.len());
    assert_eq!(store.len(), names.len());
    for (k, s) in listed.iter().enumerate() {
        assert_eq!(s.id, k as i32 + 1);
        assert_eq!(s.full_name, names[k]);
        assert_eq!(s.reg_time, at(k as i64));
    }
    let _ = StoreError::IdsExhausted;
}

#[test]
fn same_name_upload_overwrites_and_is_flagged() {
    let mut stash = FileStash::new();
    let path = stash_path(Some("report.pdf"));
    assert!(!stash.put(path.clone(), b"first".to_vec()));
    assert!(stash.put(path.clone(), b"second".to_vec()));
    assert_eq!(stash.get(&path), Some(b"second".to_vec()));

    let mut store = RecordStore::new();
    let first = stamp_row(request("Ed", 1), Some(path.clone()), "127.0.0.1", at(1));
    let second = stamp_row(request("Flo", 2), Some(stash_path(Some("report.pdf"))), "127.0.0.1", at(2));
    store.insert(first).unwrap();
    store.insert(second).unwrap();
    let listed = store.list();
    assert_eq!(listed[1].pdf_file.as_deref(), Some("uploads/report.pdf"));
    assert_eq!(listed[0].pdf_file, listed[1].pdf_file);
    assert_ne!(stash.get(&path), Some(b"first".to_vec()));
    assert_eq!(stash.get(&stash_path(Some("other.pdf"))), None);
}

#[test]
fn failed_steps_never_reach_the_insert() {
    assert_eq!(creation_step(Event::FileWriteFailed), Action::Fail(Failure::FileWrite));
    assert_eq!(creation_step(Event::InsertFailed { has_upload: true }), Action::DiscardFile(Failure::StoreWrite));
    assert_eq!(creation_step(Event::InsertFailed { has_upload: false }), Action::Fail(Failure::StoreWrite));
}

#[test]
fn unreadable_form_is_a_client_error() {
    let reply = failure_reply(Failure::Client(FormError::Unreadable));
    assert_eq!(reply.status, 400);
    assert_eq!(reply.body, "Unreadable form data");
}
