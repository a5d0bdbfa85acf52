use vstd::prelude::*;

verus! {

/// Where the bytes of a configured file come from.
#[derive(Debug, PartialEq, Eq)]
pub enum FileContent {
    /// The bytes are given in the configuration and written verbatim.
    InlineBytes(Vec<u8>),
    /// The text is given in the configuration and written as UTF-8,
    /// with nothing added at its end.
    InlineText(String),
    /// The bytes are copied from the file at this path.
    OriginalFile(String),
    /// The file is created with no content.
    Empty,
}

} // verus!
