use vstd::prelude::*;

use crate::form::{NewStudent, NewStudentView};
use crate::role::{created_by_label, label_of};
use crate::text::{copy_opt, opt_view};

verus! {

/// A point in time in UTC: whole seconds since the Unix epoch and the
/// nanoseconds past that second.
#[derive(Clone, Copy, Debug, PartialEq, Eq, Structural)]
pub struct Timestamp {
    pub secs: i64,
    pub nanos: u32,
}

impl Timestamp {
    pub open spec fn wf(self) -> bool {
        self.nanos < 1_000_000_000
    }

    /// Nanoseconds since the Unix epoch.
    pub open spec fn total_nanos(self) -> int {
        self.secs * 1_000_000_000 + self.nanos
    }

    /// Whether this instant is not later than `other`.
    pub fn is_not_after(&self, other: &Timestamp) -> (r: bool)
        requires
            self.wf(),
            other.wf(),
        ensures
            r == (self.total_nanos() <= other.total_nanos()),
    {
        proof {
            assert(self.secs < other.secs ==> self.total_nanos() < other.total_nanos())
                by (nonlinear_arith)
                requires
                    self.nanos < 1_000_000_000,
                    other.nanos >= 0,
            ;
            assert(self.secs > other.secs ==> self.total_nanos() > other.total_nanos())
                by (nonlinear_arith)
                requires
                    other.nanos < 1_000_000_000,
                    self.nanos >= 0,
            ;
        }
        self.secs < other.secs || (self.secs == other.secs && self.nanos <= other.nanos)
    }
}

/// Relies on chrono::Utc::now for the current time, read back through
/// `timestamp` and `timestamp_subsec_nanos`: the clock is read from the
/// system time after the Unix epoch, so the seconds are not negative and the
/// sub-second part is below one second.
#[verifier::external_body]
fn clock_now() -> (r: Timestamp)
    ensures
        r.secs >= 0,
        r.wf(),
{
    let now = chrono::Utc::now();
    Timestamp { secs: now.timestamp(), nanos: now.timestamp_subsec_nanos() }
}

/// A row ready to be inserted: the client's fields together with the ones
/// the service derives itself.
pub struct NewRow {
    pub full_name: String,
    pub email: String,
    pub course: String,
    pub age: i32,
    pub reg_time: Timestamp,
    pub ip_address: Option<String>,
    pub created_by: String,
    pub pdf_file: Option<String>,
}

pub struct RowView {
    pub full_name: Seq<char>,
    pub email: Seq<char>,
    pub course: Seq<char>,
    pub age: i32,
    pub reg_time: Timestamp,
    pub ip_address: Option<Seq<char>>,
    pub created_by: Seq<char>,
    pub pdf_file: Option<Seq<char>>,
}

impl View for NewRow {
    type V = RowView;

    open spec fn view(&self) -> RowView {
        RowView {
            full_name: self.full_name@,
            email: self.email@,
            course: self.course@,
            age: self.age,
            reg_time: self.reg_time,
            ip_address: opt_view(self.ip_address),
            created_by: self.created_by@,
            pdf_file: opt_view(self.pdf_file),
        }
    }
}

/// The row for a request received from `peer` and stamped at `now`: the
/// time, the address and the role label come from the service alone.
pub open spec fn stamped(
    req: NewStudentView,
    pdf_file: Option<Seq<char>>,
    peer: Seq<char>,
    now: Timestamp,
) -> RowView {
    RowView {
        full_name: req.full_name,
        email: req.email,
        course: req.course,
        age: req.age,
        reg_time: now,
        ip_address: Some(peer),
        created_by: label_of(req.created_by as int),
        pdf_file,
    }
}

/// Builds the row for a request from the observed peer address and a
/// clock reading.
pub fn stamp_row(req: NewStudent, pdf_file: Option<String>, peer: &str, now: Timestamp) -> (r:
    NewRow)
    ensures
        r@ == stamped(req@, opt_view(pdf_file), peer@, now),
{
    let created_by = created_by_label(req.created_by);
    NewRow {
        full_name: req.full_name,
        email: req.email,
        course: req.course,
        age: req.age,
        reg_time: now,
        ip_address: Some(peer.to_owned()),
        created_by,
        pdf_file,
    }
}

/// Builds the row for a request received from `peer`, stamped with the
/// current time.
pub fn stamp_row_now(req: NewStudent, pdf_file: Option<String>, peer: &str) -> (r: NewRow)
    ensures
        r.reg_time.wf(),
        r.reg_time.secs >= 0,
        r@ == stamped(req@, opt_view(pdf_file), peer@, r.reg_time),
{
    let now = clock_now();
    stamp_row(req, pdf_file, peer, now)
}

/// A stored student record: a row and the id the store gave it.
pub struct Student {
    pub id: i32,
    pub full_name: String,
    pub email: String,
    pub course: String,
    pub age: i32,
    pub reg_time: Timestamp,
    pub ip_address: Option<String>,
    pub created_by: String,
    pub pdf_file: Option<String>,
}

pub struct StudentView {
    pub id: i32,
    pub row: RowView,
}

impl View for Student {
    type V = StudentView;

    open spec fn view(&self) -> StudentView {
        StudentView {
            id: self.id,
            row: RowView {
                full_name: self.full_name@,
                email: self.email@,
                course: self.course@,
                age: self.age,
                reg_time: self.reg_time,
                ip_address: opt_view(self.ip_address),
                created_by: self.created_by@,
                pdf_file: opt_view(self.pdf_file),
            },
        }
    }
}

impl Student {
    /// The stored record for `row` under `id`.
    pub fn from_row(id: i32, row: NewRow) -> (r: Student)
        ensures
            r@ == (StudentView { id, row: row@ }),
    {
        Student {
            id,
            full_name: row.full_name,
            email: row.email,
            course: row.course,
            age: row.age,
            reg_time: row.reg_time,
            ip_address: row.ip_address,
            created_by: row.created_by,
            pdf_file: row.pdf_file,
        }
    }

    /// An independent copy of the record.
    pub fn duplicate(&self) -> (r: Student)
        ensures
            r@ == self@,
    {
        Student {
            id: self.id,
            full_name: self.full_name.clone(),
            email: self.email.clone(),
            course: self.course.clone(),
            age: self.age,
            reg_time: self.reg_time,
            ip_address: copy_opt(&self.ip_address),
            created_by: self.created_by.clone(),
            pdf_file: copy_opt(&self.pdf_file),
        }
    }
}

/// The time, address and role label of a stamped row are the service's
/// own: the clock reading lies in any window that contains it, the address
/// is the observed peer's, and two requests stamped by the same peer at the
/// same time get the same time and address whatever they carry.
pub proof fn lemma_server_side_fields(
    req: NewStudentView,
    other: NewStudentView,
    pdf_file: Option<Seq<char>>,
    peer: Seq<char>,
    now: Timestamp,
    start: Timestamp,
    end: Timestamp,
)
    requires
        start.total_nanos() <= now.total_nanos() <= end.total_nanos(),
    ensures
        start.total_nanos() <= stamped(req, pdf_file, peer, now).reg_time.total_nanos()
            <= end.total_nanos(),
        stamped(req, pdf_file, peer, now).ip_address == Some(peer),
        stamped(req, pdf_file, peer, now).reg_time == stamped(other, None, peer, now).reg_time,
        stamped(req, pdf_file, peer, now).ip_address == stamped(
            other,
            None,
            peer,
            now,
        ).ip_address,
        stamped(req, pdf_file, peer, now).created_by == label_of(req.created_by as int),
{
}

} // verus!
