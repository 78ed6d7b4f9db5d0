//! Validation for configuration export: only destination paths with the
//! `.json` extension are accepted, compared without regard to letter case;
//! everything else is rejected before anything touches the filesystem.
use vstd::prelude::*;

verus! {

/// True when the path ends in `.json`, letter case ignored.
pub open spec fn is_json_path(s: Seq<char>) -> bool {
    &&& s.len() >= 5
    &&& s[s.len() - 5] == '.'
    &&& (s[s.len() - 4] == 'j' || s[s.len() - 4] == 'J')
    &&& (s[s.len() - 3] == 's' || s[s.len() - 3] == 'S')
    &&& (s[s.len() - 2] == 'o' || s[s.len() - 2] == 'O')
    &&& (s[s.len() - 1] == 'n' || s[s.len() - 1] == 'N')
}

/// The rejection reported for a destination without the `.json` extension.
pub open spec fn export_rejection() -> Seq<char> {
    "Only .json files are allowed for export."@
}

/// Accepts exactly the destinations ending in `.json` (letter case ignored);
/// any other path is rejected with the validation error, and the caller must
/// not touch the filesystem for it.
pub fn check_export_path(path: &str) -> (r: Result<(), String>)
    ensures
        r is Ok <==> is_json_path(path@),
        r is Err ==> r->Err_0@ == export_rejection(),
{
    let n = path.unicode_len();
    if n < 5 {
        return Err(String::from_str("Only .json files are allowed for export."));
    }
    let c5 = path.get_char(n - 5);
    let c4 = path.get_char(n - 4);
    let c3 = path.get_char(n - 3);
    let c2 = path.get_char(n - 2);
    let c1 = path.get_char(n - 1);
    if c5 == '.' && (c4 == 'j' || c4 == 'J') && (c3 == 's' || c3 == 'S') && (c2 == 'o' || c2 == 'O')
        && (c1 == 'n' || c1 == 'N') {
        Ok(())
    } else {
        Err(String::from_str("Only .json files are allowed for export."))
    }
}

/// The success narrative for an export that was written, naming the path.
pub fn export_success_message(path: &str) -> (r: String)
    ensures
        r@ == "Configuration successfully exported to: "@ + path@,
{
    let mut r = String::from_str("Configuration successfully exported to: ");
    r.append(path);
    r
}

/// The error reported when the destination was acceptable but writing it
/// failed, wrapping the filesystem's own message.
pub fn export_write_failure(error: &str) -> (r: String)
    ensures
        r@ == "Failed to write config: "@ + error@,
{
    let mut r = String::from_str("Failed to write config: ");
    r.append(error);
    r
}

} // verus!
