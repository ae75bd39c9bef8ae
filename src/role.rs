use vstd::prelude::*;
use vstd::string::*;

verus! {

/// The label persisted in `created_by` for a client-supplied role code.
pub open spec fn label_of(code: int) -> Seq<char> {
    if code == 1 {
        "Admin"@
    } else if code == 2 {
        "SuperAdmin"@
    } else {
        "Unknown"@
    }
}

/// Maps a role code to its label: 1 is "Admin", 2 is "SuperAdmin", every
/// other value is "Unknown".
pub fn created_by_label(code: i32) -> (r: String)
    ensures
        r@ == label_of(code as int),
{
    if code == 1 {
        String::from_str("Admin")
    } else if code == 2 {
        String::from_str("SuperAdmin")
    } else {
        String::from_str("Unknown")
    }
}

/// The label is always one of exactly three values, and codes other than
/// 1 and 2 (negative, zero or large) all give "Unknown".
pub proof fn lemma_label_three_way(code: int)
    ensures
        label_of(code) == "Admin"@ || label_of(code) == "SuperAdmin"@ || label_of(code)
            == "Unknown"@,
        code == 1 ==> label_of(code) == "Admin"@,
        code == 2 ==> label_of(code) == "SuperAdmin"@,
        code != 1 && code != 2 ==> label_of(code) == "Unknown"@,
{
}

} // verus!
