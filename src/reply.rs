use vstd::prelude::*;
use vstd::string::*;

use crate::form::{FormError, TextField};

verus! {

/// Why a request ends without its work done.
#[derive(Clone, Copy, Debug, PartialEq, Eq, Structural)]
pub enum Failure {
    /// The request itself is malformed.
    Client(FormError),
    /// The upload could not be written to the stash.
    FileWrite,
    /// The store refused or failed the insert.
    StoreWrite,
    /// The store could not be read.
    StoreRead,
}

/// A status code and a plain-text body.
pub struct Reply {
    pub status: u16,
    pub body: String,
}

pub open spec fn field_name(f: TextField) -> Seq<char> {
    match f {
        TextField::FullName => "full_name"@,
        TextField::Email => "email"@,
        TextField::Course => "course"@,
        TextField::Age => "age"@,
        TextField::CreatedBy => "created_by"@,
    }
}

/// The status of the reply to a failure: 400 for the client's fault, 500
/// for the service's.
pub open spec fn failure_status(f: Failure) -> u16 {
    match f {
        Failure::Client(_) => 400,
        _ => 500,
    }
}

pub open spec fn failure_text(f: Failure) -> Seq<char> {
    match f {
        Failure::Client(FormError::MissingField(x)) => "Missing field: "@ + field_name(x),
        Failure::Client(FormError::InvalidNumber(x)) => "Not a whole number: "@ + field_name(x),
        Failure::Client(FormError::Unreadable) => "Unreadable form data"@,
        Failure::FileWrite => "Failed to store file"@,
        Failure::StoreWrite => "Failed to add student"@,
        Failure::StoreRead => "Failed to list students"@,
    }
}

pub open spec fn created_text() -> Seq<char> {
    "Student added with file"@
}

/// The wire name of a text field.
pub fn field_name_text(f: TextField) -> (r: String)
    ensures
        r@ == field_name(f),
{
    match f {
        TextField::FullName => String::from_str("full_name"),
        TextField::Email => String::from_str("email"),
        TextField::Course => String::from_str("course"),
        TextField::Age => String::from_str("age"),
        TextField::CreatedBy => String::from_str("created_by"),
    }
}

/// The reply to a creation that stored its row.
pub fn created_reply() -> (r: Reply)
    ensures
        r.status == 200,
        r.body@ == created_text(),
{
    Reply { status: 200, body: String::from_str("Student added with file") }
}

/// The reply to a failed request.
pub fn failure_reply(f: Failure) -> (r: Reply)
    ensures
        r.status == failure_status(f),
        r.body@ == failure_text(f),
{
    match f {
        Failure::Client(FormError::MissingField(x)) => {
            let mut body = String::from_str("Missing field: ");
            let name = field_name_text(x);
            body.append(name.as_str());
            Reply { status: 400, body }
        },
        Failure::Client(FormError::InvalidNumber(x)) => {
            let mut body = String::from_str("Not a whole number: ");
            let name = field_name_text(x);
            body.append(name.as_str());
            Reply { status: 400, body }
        },
        Failure::Client(FormError::Unreadable) => Reply {
            status: 400,
            body: String::from_str("Unreadable form data"),
        },
        Failure::FileWrite => Reply { status: 500, body: String::from_str("Failed to store file") },
        Failure::StoreWrite => Reply {
            status: 500,
            body: String::from_str("Failed to add student"),
        },
        Failure::StoreRead => Reply {
            status: 500,
            body: String::from_str("Failed to list students"),
        },
    }
}

/// What has just happened while a creation request is handled.
#[derive(Clone, Copy, Debug, PartialEq, Eq, Structural)]
pub enum Event {
    /// The form was read completely and is valid.
    FormReady { has_upload: bool },
    /// The form was refused.
    FormRejected(FormError),
    /// The upload's bytes are in the stash.
    FileWritten,
    /// The upload could not be written.
    FileWriteFailed,
    /// The row was inserted.
    Inserted,
    /// The insert failed.
    InsertFailed { has_upload: bool },
}

/// What the handler does next.
#[derive(Clone, Copy, Debug, PartialEq, Eq, Structural)]
pub enum Action {
    /// Write the upload to its stash path.
    WriteFile,
    /// Insert the stamped row.
    InsertRow,
    /// Remove the upload just written, then reply with this failure.
    DiscardFile(Failure),
    /// Reply with this failure; nothing was stored.
    Fail(Failure),
    /// Reply that the student was added.
    Succeed,
}

/// A valid form writes its upload first, if any, and inserts its row only
/// once the upload is stored; a failed insert removes the upload it would
/// have referred to.
pub open spec fn next_action(e: Event) -> Action {
    match e {
        Event::FormReady { has_upload } => if has_upload {
            Action::WriteFile
        } else {
            Action::InsertRow
        },
        Event::FormRejected(err) => Action::Fail(Failure::Client(err)),
        Event::FileWritten => Action::InsertRow,
        Event::FileWriteFailed => Action::Fail(Failure::FileWrite),
        Event::Inserted => Action::Succeed,
        Event::InsertFailed { has_upload } => if has_upload {
            Action::DiscardFile(Failure::StoreWrite)
        } else {
            Action::Fail(Failure::StoreWrite)
        },
    }
}

/// Decides the next step of a creation request.
pub fn creation_step(e: Event) -> (r: Action)
    ensures
        r == next_action(e),
{
    match e {
        Event::FormReady { has_upload } => if has_upload {
            Action::WriteFile
        } else {
            Action::InsertRow
        },
        Event::FormRejected(err) => Action::Fail(Failure::Client(err)),
        Event::FileWritten => Action::InsertRow,
        Event::FileWriteFailed => Action::Fail(Failure::FileWrite),
        Event::Inserted => Action::Succeed,
        Event::InsertFailed { has_upload } => if has_upload {
            Action::DiscardFile(Failure::StoreWrite)
        } else {
            Action::Fail(Failure::StoreWrite)
        },
    }
}

} // verus!
