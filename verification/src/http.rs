//! Works acquired by direct document download: the canonical file name the
//! payload is stored under, and the decision whether a fetch is still
//! required. The network transfer itself is carried out by the driver.

use vstd::prelude::*;

use crate::strings::{replace_spaces, underscore_char};

verus! {

/// The canonical file name of a work: its title with spaces replaced by
/// underscores, followed by the configured format suffix.
pub open spec fn file_name_of(title: Seq<char>, format: Seq<char>) -> Seq<char> {
    title.map_values(|c: char| underscore_char(c)) + format
}

/// A download is required exactly when the destination file is absent, which
/// makes a second run over an unchanged destination a no-op.
pub open spec fn download_required(destination_exists: bool) -> bool {
    !destination_exists
}

/// A work fetched as a single document over HTTP.
#[derive(Clone)]
pub struct ViaHTTP {
    pub title: String,
    pub url: String,
    pub format: String,
    pub needs_ocr: bool,
    pub start_page: Option<i64>,
    pub end_page: Option<i64>,
}

impl ViaHTTP {
    /// A descriptor is well formed when its title is non-empty; the title
    /// derives both the file base name and the canonical directory name.
    pub open spec fn wf(&self) -> bool {
        self.title@.len() > 0
    }

    /// The file name this work is stored under at the author root.
    pub fn get_file_name(&self) -> (r: String)
        ensures
            r@ == file_name_of(self.title@, self.format@),
    {
        let base = replace_spaces(self.title.as_str());
        base.concat(self.format.as_str())
    }

    /// Whether this work must still be fetched, given the observed existence
    /// of its destination file.
    pub fn must_download(&self, destination_exists: bool) -> (r: bool)
        ensures
            r == download_required(destination_exists),
    {
        !destination_exists
    }
}

impl Default for ViaHTTP {
    fn default() -> (r: Self)
        ensures
            r.title@ == Seq::<char>::empty(),
            r.url@ == Seq::<char>::empty(),
            r.format@ == Seq::<char>::empty(),
            r.needs_ocr == false,
            r.start_page is None,
            r.end_page is None,
    {
        ViaHTTP {
            title: String::new(),
            url: String::new(),
            format: String::new(),
            needs_ocr: false,
            start_page: None,
            end_page: None,
        }
    }
}

} // verus!
