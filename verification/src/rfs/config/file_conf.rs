use vstd::prelude::*;
use crate::rfs::file_content::FileContent;

verus! {

/// A file named `name` whose bytes come from `content`.
#[derive(Debug, PartialEq, Eq)]
pub struct FileConf {
    pub name: String,
    pub content: FileContent,
}

} // verus!
