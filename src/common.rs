//! The minimal post model shared by sites whose APIs give a URL, a digest and an extension.
use crate::integrity::{content_matches, md5_hex_of};
use vstd::prelude::*;

verus! {

/// A post as most imageboard APIs describe it: enough to fetch it and name its file.
pub struct CommonPostItem {
    /// Direct URL of the full-size file.
    pub url: String,
    /// Hex digest of the file, which also names it.
    pub md5: String,
    /// The file's extension.
    pub ext: String,
}

impl CommonPostItem {
    /// The file name: the digest, a dot, and the extension.
    pub open spec fn spec_file_name(&self) -> Seq<char> {
        self.md5@ + seq!['.'] + self.ext@
    }

    pub fn file_name(&self) -> (r: String)
        ensures
            r@ == self.spec_file_name(),
    {
        proof {
            reveal_strlit(".");
        }
        String::from_str(self.md5.as_str()).concat(".").concat(self.ext.as_str())
    }

    /// Whether the item must be fetched, given the contents of the file already at its
    /// path, if any: it must unless that file has the item's digest. A file with another
    /// digest is corrupt, and is to be replaced.
    pub fn must_fetch(&self, existing: Option<&Vec<u8>>) -> (r: bool)
        ensures
            r == match existing {
                None => true,
                Some(data) => md5_hex_of(data@) != self.md5@,
            },
    {
        match existing {
            None => true,
            Some(data) => !content_matches(data, &self.md5),
        }
    }
}

} // verus!
