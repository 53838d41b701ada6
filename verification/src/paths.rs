//! The fixed directory layout under the working directory. The driver
//! obtains the working directory, computes the layout here, and creates
//! whichever directories are missing.

use vstd::prelude::*;

verus! {

/// Every location the pipeline writes under, derived from one parent
/// directory.
pub struct Directories {
    pub data: String,
    pub images: String,
    pub models: String,
    pub ocr_outputs: String,
    pub pdfs_after_ocr: String,
    pub txt_after_ocr: String,
    pub chroma: String,
    pub images_in_downloads: String,
}

impl Directories {
    /// Every field is the documented location under `parent`.
    pub open spec fn derived_from(&self, parent: Seq<char>) -> bool {
        &&& self.data@ == parent + "/data"@
        &&& self.images@ == parent + "/images"@
        &&& self.models@ == parent + "/models"@
        &&& self.ocr_outputs@ == parent + "/OCR"@
        &&& self.pdfs_after_ocr@ == parent + "/OCR"@ + "/pdf"@
        &&& self.txt_after_ocr@ == parent + "/OCR"@ + "/pdf"@
        &&& self.chroma@ == parent + "/chroma"@
        &&& self.images_in_downloads@ == parent + "/images"@ + "/images_in_downloads"@
    }

    /// The layout rooted at `parent`.
    pub fn get(parent: &String) -> (r: Directories)
        ensures
            r.derived_from(parent@),
    {
        Directories::setup(parent)
    }

    /// Compute every location of the layout under `parent`.
    pub fn setup(parent: &String) -> (r: Directories)
        ensures
            r.derived_from(parent@),
    {
        let data: String = parent.as_str().to_owned().concat("/data");
        let images: String = parent.as_str().to_owned().concat("/images");
        let models: String = parent.as_str().to_owned().concat("/models");
        let chroma: String = parent.as_str().to_owned().concat("/chroma");
        let ocr_outputs: String = parent.as_str().to_owned().concat("/OCR");
        let pdfs_after_ocr: String = ocr_outputs.as_str().to_owned().concat("/pdf");
        let txt_after_ocr: String = ocr_outputs.as_str().to_owned().concat("/pdf");
        let images_in_downloads: String = images.as_str().to_owned().concat(
            "/images_in_downloads",
        );
        Directories {
            models,
            data,
            images,
            chroma,
            ocr_outputs,
            images_in_downloads,
            txt_after_ocr,
            pdfs_after_ocr,
        }
    }

    /// The locations in declaration order, for the driver to create.
    pub fn all_directories(&self) -> (r: Vec<String>)
        ensures
            r.deep_view() == seq![
                self.data@,
                self.images@,
                self.models@,
                self.ocr_outputs@,
                self.pdfs_after_ocr@,
                self.txt_after_ocr@,
                self.chroma@,
                self.images_in_downloads@,
            ],
    {
        let mut r: Vec<String> = Vec::new();
        r.push(self.data.clone());
        r.push(self.images.clone());
        r.push(self.models.clone());
        r.push(self.ocr_outputs.clone());
        r.push(self.pdfs_after_ocr.clone());
        r.push(self.txt_after_ocr.clone());
        r.push(self.chroma.clone());
        r.push(self.images_in_downloads.clone());
        proof {
            assert(r.deep_view() =~= seq![
                self.data@,
                self.images@,
                self.models@,
                self.ocr_outputs@,
                self.pdfs_after_ocr@,
                self.txt_after_ocr@,
                self.chroma@,
                self.images_in_downloads@,
            ]);
        }
        r
    }
}

} // verus!
