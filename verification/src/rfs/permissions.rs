//! The switch that decides whether hard links may be created.

use vstd::prelude::*;

verus! {

/// The name of the environment variable that switches links on.
pub const LINKS_ALLOWED_VAR_NAME: &'static str = "LINKS_ALLOWED";

/// The value of the switch that permits links.
pub const LINKS_ALLOWED_VALUE: &'static str = "Y";

/// What a sandbox is permitted to do. The permissions are resolved once,
/// before anything is built, and hold for every entry of the configuration.
#[derive(Debug, Clone, Copy, PartialEq, Eq)]
pub struct Permissions {
    pub links_allowed: bool,
}

/// Whether a value of the switch permits links: only the value `Y` does.
pub open spec fn toggle_allows(value: Option<Seq<char>>) -> bool {
    value == Some(LINKS_ALLOWED_VALUE@)
}

impl Permissions {
    /// The permissions that a value of the switch gives. An unset switch, and
    /// every value other than `Y`, leaves links switched off.
    pub fn from_toggle(value: Option<&str>) -> (permissions: Permissions)
        ensures
            permissions.links_allowed == toggle_allows(
                match value {
                    Some(text) => Some(text@),
                    None => None,
                },
            ),
    {
        proof {
            reveal_strlit("Y");
        }
        match value {
            Some(text) => {
                let allowed = text.unicode_len() == 1 && text.get_char(0) == 'Y';
                assert(allowed == (text@ =~= LINKS_ALLOWED_VALUE@));
                Permissions { links_allowed: allowed }
            },
            None => Permissions { links_allowed: false },
        }
    }
}

} // verus!
