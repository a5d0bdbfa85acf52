use vstd::prelude::*;

verus! {

/// A hard link named `name` that points at the existing file `target`.
///
/// A hard link shares the content of its target: writing through the link
/// changes the file that it points at. Links are therefore honoured only
/// when the sandbox was explicitly permitted to create them.
#[derive(Debug, Clone, PartialEq, Eq)]
pub struct LinkConf {
    pub name: String,
    pub target: String,
}

} // verus!
