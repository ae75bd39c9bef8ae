use vstd::prelude::*;
use vstd::string::*;

use crate::number::{parse_i32, parsed_i32};
use crate::text::{opt_view, same_text};

verus! {

/// The text fields of a creation request.
#[derive(Clone, Copy, Debug, PartialEq, Eq, Structural)]
pub enum TextField {
    FullName,
    Email,
    Course,
    Age,
    CreatedBy,
}

/// What a form field is, decided by its name.
#[derive(Clone, Copy, Debug, PartialEq, Eq, Structural)]
pub enum FieldKind {
    Text(TextField),
    Upload,
    Ignored,
}

/// Why a creation request is refused before anything is stored.
#[derive(Clone, Copy, Debug, PartialEq, Eq, Structural)]
pub enum FormError {
    /// A required field never arrived.
    MissingField(TextField),
    /// A numeric field does not hold a decimal `i32`.
    InvalidNumber(TextField),
    /// The form's framing is broken, a field has no name, or a field's
    /// contents cannot be read.
    Unreadable,
}

/// The kind of the field with the given name.
pub open spec fn kind_of(name: Seq<char>) -> FieldKind {
    if name == "full_name"@ {
        FieldKind::Text(TextField::FullName)
    } else if name == "email"@ {
        FieldKind::Text(TextField::Email)
    } else if name == "course"@ {
        FieldKind::Text(TextField::Course)
    } else if name == "age"@ {
        FieldKind::Text(TextField::Age)
    } else if name == "created_by"@ {
        FieldKind::Text(TextField::CreatedBy)
    } else if name == "pdf_file"@ {
        FieldKind::Upload
    } else {
        FieldKind::Ignored
    }
}

/// Classifies a form field by its name; unknown names are ignored.
pub fn field_kind(name: &str) -> (r: FieldKind)
    ensures
        r == kind_of(name@),
{
    if same_text(name, "full_name") {
        FieldKind::Text(TextField::FullName)
    } else if same_text(name, "email") {
        FieldKind::Text(TextField::Email)
    } else if same_text(name, "course") {
        FieldKind::Text(TextField::Course)
    } else if same_text(name, "age") {
        FieldKind::Text(TextField::Age)
    } else if same_text(name, "created_by") {
        FieldKind::Text(TextField::CreatedBy)
    } else if same_text(name, "pdf_file") {
        FieldKind::Upload
    } else {
        FieldKind::Ignored
    }
}

/// Fields that the service derives itself are never taken from a form:
/// a client's `id`, `reg_time` or `ip_address` is ignored.
pub proof fn lemma_server_fields_ignored()
    ensures
        kind_of("id"@) == FieldKind::Ignored,
        kind_of("reg_time"@) == FieldKind::Ignored,
        kind_of("ip_address"@) == FieldKind::Ignored,
{
    reveal_strlit("id");
    reveal_strlit("reg_time");
    reveal_strlit("ip_address");
    reveal_strlit("full_name");
    reveal_strlit("email");
    reveal_strlit("course");
    reveal_strlit("age");
    reveal_strlit("created_by");
    reveal_strlit("pdf_file");
    assert("id"@.len() == 2 && "reg_time"@.len() == 8 && "ip_address"@.len() == 10);
    assert("full_name"@.len() == 9 && "email"@.len() == 5 && "course"@.len() == 6);
    assert("age"@.len() == 3 && "created_by"@.len() == 10 && "pdf_file"@.len() == 8);
    assert("reg_time"@[0] != "pdf_file"@[0]);
    assert("ip_address"@[0] != "created_by"@[0]);
}

/// Where an upload is kept: the upload directory, a slash, and the
/// client's file name taken verbatim ("upload.pdf" when none was given).
pub open spec fn stash_path_of(file_name: Option<Seq<char>>) -> Seq<char> {
    match file_name {
        Some(n) => "uploads/"@ + n,
        None => "uploads/upload.pdf"@,
    }
}

/// Builds the stash path of an upload from its declared file name.
pub fn stash_path(file_name: Option<&str>) -> (r: String)
    ensures
        r@ == stash_path_of(
            match file_name {
                Some(n) => Some(n@),
                None => None,
            },
        ),
{
    let mut path = String::from_str("uploads/");
    match file_name {
        Some(n) => path.append(n),
        None => path.append("upload.pdf"),
    }
    proof {
        reveal_strlit("uploads/");
        reveal_strlit("upload.pdf");
        reveal_strlit("uploads/upload.pdf");
        if file_name is None {
            assert(path@ =~= "uploads/upload.pdf"@);
        }
    }
    path
}

/// A creation request as the client sent it: no time, address or label.
pub struct NewStudent {
    pub full_name: String,
    pub email: String,
    pub course: String,
    pub age: i32,
    pub created_by: i32,
}

pub struct NewStudentView {
    pub full_name: Seq<char>,
    pub email: Seq<char>,
    pub course: Seq<char>,
    pub age: i32,
    pub created_by: i32,
}

impl View for NewStudent {
    type V = NewStudentView;

    open spec fn view(&self) -> NewStudentView {
        NewStudentView {
            full_name: self.full_name@,
            email: self.email@,
            course: self.course@,
            age: self.age,
            created_by: self.created_by,
        }
    }
}

/// The fields of a multipart creation form gathered so far.
pub struct FormState {
    pub full_name: Option<String>,
    pub email: Option<String>,
    pub course: Option<String>,
    pub age: Option<i32>,
    pub created_by: Option<i32>,
    pub pdf_file: Option<String>,
}

pub struct FormView {
    pub full_name: Option<Seq<char>>,
    pub email: Option<Seq<char>>,
    pub course: Option<Seq<char>>,
    pub age: Option<i32>,
    pub created_by: Option<i32>,
    pub pdf_file: Option<Seq<char>>,
}

impl View for FormState {
    type V = FormView;

    open spec fn view(&self) -> FormView {
        FormView {
            full_name: opt_view(self.full_name),
            email: opt_view(self.email),
            course: opt_view(self.course),
            age: self.age,
            created_by: self.created_by,
            pdf_file: opt_view(self.pdf_file),
        }
    }
}

/// The form after a text field arrives, or the error it causes. A later
/// value of a field replaces an earlier one.
pub open spec fn after_text(f: FormView, field: TextField, value: Seq<char>) -> Result<
    FormView,
    FormError,
> {
    match field {
        TextField::FullName => Ok(FormView { full_name: Some(value), ..f }),
        TextField::Email => Ok(FormView { email: Some(value), ..f }),
        TextField::Course => Ok(FormView { course: Some(value), ..f }),
        TextField::Age => match parsed_i32(value) {
            Some(v) => Ok(FormView { age: Some(v), ..f }),
            None => Err(FormError::InvalidNumber(TextField::Age)),
        },
        TextField::CreatedBy => match parsed_i32(value) {
            Some(v) => Ok(FormView { created_by: Some(v), ..f }),
            None => Err(FormError::InvalidNumber(TextField::CreatedBy)),
        },
    }
}

/// The request a complete form describes, or the first required field
/// (in the order name, email, course, age, role) that is missing.
pub open spec fn completed(f: FormView) -> Result<NewStudentView, FormError> {
    if f.full_name is None {
        Err(FormError::MissingField(TextField::FullName))
    } else if f.email is None {
        Err(FormError::MissingField(TextField::Email))
    } else if f.course is None {
        Err(FormError::MissingField(TextField::Course))
    } else if f.age is None {
        Err(FormError::MissingField(TextField::Age))
    } else if f.created_by is None {
        Err(FormError::MissingField(TextField::CreatedBy))
    } else {
        Ok(
            NewStudentView {
                full_name: f.full_name->0,
                email: f.email->0,
                course: f.course->0,
                age: f.age->0,
                created_by: f.created_by->0,
            },
        )
    }
}

impl FormState {
    /// A form with no field received.
    pub fn new() -> (r: FormState)
        ensures
            r@.full_name is None,
            r@.email is None,
            r@.course is None,
            r@.age is None,
            r@.created_by is None,
            r@.pdf_file is None,
    {
        FormState {
            full_name: None,
            email: None,
            course: None,
            age: None,
            created_by: None,
            pdf_file: None,
        }
    }

    /// Takes in a text field. A numeric field whose text is not a decimal
    /// `i32` is refused and leaves the form as it was.
    pub fn accept_text(&mut self, field: TextField, value: &str) -> (r: Result<(), FormError>)
        ensures
            match after_text(old(self)@, field, value@) {
                Ok(f) => r is Ok && final(self)@ == f,
                Err(e) => r == Err::<(), FormError>(e) && final(self)@ == old(self)@,
            },
    {
        match field {
            TextField::FullName => {
                self.full_name = Some(String::from_str(value));
            },
            TextField::Email => {
                self.email = Some(String::from_str(value));
            },
            TextField::Course => {
                self.course = Some(String::from_str(value));
            },
            TextField::Age => match parse_i32(value) {
                Some(v) => {
                    self.age = Some(v);
                },
                None => {
                    return Err(FormError::InvalidNumber(TextField::Age));
                },
            },
            TextField::CreatedBy => match parse_i32(value) {
                Some(v) => {
                    self.created_by = Some(v);
                },
                None => {
                    return Err(FormError::InvalidNumber(TextField::CreatedBy));
                },
            },
        }
        Ok(())
    }

    /// Records an upload and returns the stash path its bytes go to.
    pub fn accept_upload(&mut self, file_name: Option<&str>) -> (r: String)
        ensures
            r@ == stash_path_of(
                match file_name {
                    Some(n) => Some(n@),
                    None => None,
                },
            ),
            final(self)@ == (FormView { pdf_file: Some(r@), ..old(self)@ }),
    {
        let path = stash_path(file_name);
        self.pdf_file = Some(path.clone());
        path
    }

    /// The request the form describes, with the stash path of its upload,
    /// or the first missing required field.
    pub fn finish(self) -> (r: Result<(NewStudent, Option<String>), FormError>)
        ensures
            match completed(self@) {
                Ok(s) => r is Ok && r->Ok_0.0@ == s && opt_view(r->Ok_0.1) == self@.pdf_file,
                Err(e) => r == Err::<(NewStudent, Option<String>), FormError>(e),
            },
    {
        let FormState { full_name, email, course, age, created_by, pdf_file } = self;
        let full_name = match full_name {
            Some(v) => v,
            None => {
                return Err(FormError::MissingField(TextField::FullName));
            },
        };
        let email = match email {
            Some(v) => v,
            None => {
                return Err(FormError::MissingField(TextField::Email));
            },
        };
        let course = match course {
            Some(v) => v,
            None => {
                return Err(FormError::MissingField(TextField::Course));
            },
        };
        let age = match age {
            Some(v) => v,
            None => {
                return Err(FormError::MissingField(TextField::Age));
            },
        };
        let created_by = match created_by {
            Some(v) => v,
            None => {
                return Err(FormError::MissingField(TextField::CreatedBy));
            },
        };
        Ok((NewStudent { full_name, email, course, age, created_by }, pdf_file))
    }
}

} // verus!
