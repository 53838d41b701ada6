//! Works acquired by scraping a page: paragraph extraction from the fetched
//! HTML, optional truncation between two configured markers, and the
//! decisions that make a repeated run a no-op. Fetching the page and writing
//! the file are carried out by the driver.

use vstd::prelude::*;

use crate::authors::{find_raw_data_for_author, raw_root_of};
use crate::http::{download_required, file_name_of};
use crate::strings::{contains_sub, last_occurrence, lemma_last_occurrence, replace_spaces, rfind_str};

verus! {

/// The paragraph texts extracted from an HTML document, in document order.
pub uninterp spec fn paragraphs_of(html: Seq<char>) -> Seq<Seq<char>>;

/// Relies on scraper's `Html::parse_document`, `Selector::parse` and
/// `ElementRef::text`: the texts of the `p` elements of a document are a
/// function of the HTML text alone, and parsing cannot fail. The fixed
/// selector `p` is valid, so `Selector::parse` returns `Ok` on it.
#[verifier::external_body]
fn extract_paragraph_texts(html: &str) -> (r: Vec<String>)
    ensures
        r.deep_view() == paragraphs_of(html@),
{
    let document = scraper::Html::parse_document(html);
    let selector = scraper::Selector::parse("p").unwrap();
    document.select(&selector).map(|element| element.text().collect()).collect()
}

/// The paragraph texts concatenated, each followed by one newline.
pub open spec fn joined_paragraphs(ps: Seq<Seq<char>>) -> Seq<char>
    decreases ps.len(),
{
    if ps.len() == 0 {
        Seq::empty()
    } else {
        joined_paragraphs(ps.drop_last()) + ps.last() + seq!['\n']
    }
}

/// A work extracted from a page: the text of its paragraphs, optionally cut
/// down between a pair of markers.
#[derive(Clone)]
pub struct ViaScraper {
    pub title: String,
    pub url: String,
    pub format: String,
    pub is_interview: bool,
    pub initial_marker: Option<String>,
    pub terminal_marker: Option<String>,
}

impl ViaScraper {
    /// A descriptor is well formed when its title is non-empty.
    pub open spec fn wf(&self) -> bool {
        self.title@.len() > 0
    }

    /// Truncation applies only when both markers are configured.
    pub open spec fn truncation_configured(&self) -> bool {
        self.initial_marker is Some && self.terminal_marker is Some
    }

    /// Exactly one marker is configured: a configuration error. The text is
    /// then kept in full and the caller reports the mistake.
    pub open spec fn partially_configured(&self) -> bool {
        (self.initial_marker is Some) != (self.terminal_marker is Some)
    }

    /// The file name this work is stored under at the author root.
    pub fn get_file_name(&self) -> (r: String)
        ensures
            r@ == file_name_of(self.title@, self.format@),
    {
        let base = replace_spaces(self.title.as_str());
        base.concat(self.format.as_str())
    }

    /// The raw-data directory of the author the work belongs to.
    pub fn find_raw_data_for_author(&self, data_dir: &String, author_name: String) -> (r: String)
        ensures
            r@ == raw_root_of(data_dir@, author_name@),
    {
        find_raw_data_for_author(data_dir, author_name)
    }

    /// Whether this work must still be scraped, given the observed existence
    /// of its destination file.
    pub fn must_download(&self, destination_exists: bool) -> (r: bool)
        ensures
            r == download_required(destination_exists),
    {
        !destination_exists
    }

    /// The scraped text of the page: every paragraph of the HTML document,
    /// each on a line of its own.
    pub fn scrape(&self, html: &String) -> (r: String)
        ensures
            r@ == joined_paragraphs(paragraphs_of(html@)),
    {
        let texts: Vec<String> = extract_paragraph_texts(html.as_str());
        let mut out: String = String::new();
        let n: usize = texts.len();
        let mut i: usize = 0;
        while i < n
            invariant
                i <= n,
                n == texts@.len(),
                texts.deep_view() == paragraphs_of(html@),
                out@ == joined_paragraphs(texts.deep_view().take(i as int)),
            decreases n - i,
        {
            out.append(texts[i].as_str());
            out.append("\n");
            proof {
                reveal_strlit("\n");
                let dv = texts.deep_view();
                assert(dv.take(i + 1).drop_last() =~= dv.take(i as int));
            }
            i = i + 1;
        }
        proof {
            assert(texts.deep_view().take(n as int) =~= texts.deep_view());
        }
        out
    }

    /// Whether truncation is to be applied: true exactly when both markers
    /// are configured. A partial configuration is reported by the caller and
    /// truncation is skipped.
    pub fn needs_truncation(&self) -> (r: bool)
        ensures
            r == self.truncation_configured(),
    {
        match (&self.initial_marker, &self.terminal_marker) {
            (Some(_), Some(_)) => true,
            _ => false,
        }
    }

    /// Whether exactly one truncation marker is configured.
    pub fn has_partial_markers(&self) -> (r: bool)
        ensures
            r == self.partially_configured(),
    {
        match (&self.initial_marker, &self.terminal_marker) {
            (Some(_), None) => true,
            (None, Some(_)) => true,
            _ => false,
        }
    }

    /// The slice of `full_text` between the last occurrence of the initial
    /// marker and the last occurrence of the terminal marker.
    pub fn truncate(&self, full_text: &String) -> (r: Option<String>)
        requires
            self.initial_marker is Some,
            self.terminal_marker is Some,
            contains_sub(full_text@, self.initial_marker->0@),
            contains_sub(full_text@, self.terminal_marker->0@),
            last_occurrence(full_text@, self.initial_marker->0@) <= last_occurrence(
                full_text@,
                self.terminal_marker->0@,
            ),
        ensures
            r matches Some(t) && t@ == full_text@.subrange(
                last_occurrence(full_text@, self.initial_marker->0@),
                last_occurrence(full_text@, self.terminal_marker->0@),
            ),
    {
        let initial: &String = match &self.initial_marker {
            Some(m) => m,
            None => {
                return None;
            },
        };
        let terminal: &String = match &self.terminal_marker {
            Some(m) => m,
            None => {
                return None;
            },
        };
        proof {
            lemma_last_occurrence(full_text@, initial@);
            lemma_last_occurrence(full_text@, terminal@);
        }
        let start_index: usize = match rfind_str(full_text.as_str(), initial.as_str()) {
            Some(i) => i,
            None => {
                return None;
            },
        };
        let terminal_index: usize = match rfind_str(full_text.as_str(), terminal.as_str()) {
            Some(i) => i,
            None => {
                return None;
            },
        };
        Some(full_text.as_str().substring_char(start_index, terminal_index).to_owned())
    }

    /// The text as it is to be saved: truncated between the markers when both
    /// are configured and found in order, kept in full when truncation is not
    /// configured, and rejected when the configured markers cannot be
    /// applied.
    pub fn apply_truncation(&self, full_text: &String) -> (r: Option<String>)
        ensures
            !self.truncation_configured() ==> (r matches Some(t) && t@ == full_text@),
            self.truncation_configured() && contains_sub(full_text@, self.initial_marker->0@)
                && contains_sub(full_text@, self.terminal_marker->0@) && last_occurrence(
                full_text@,
                self.initial_marker->0@,
            ) <= last_occurrence(full_text@, self.terminal_marker->0@) ==> (r matches Some(t)
                && t@ == full_text@.subrange(
                last_occurrence(full_text@, self.initial_marker->0@),
                last_occurrence(full_text@, self.terminal_marker->0@),
            )),
            self.truncation_configured() && !(contains_sub(full_text@, self.initial_marker->0@)
                && contains_sub(full_text@, self.terminal_marker->0@) && last_occurrence(
                full_text@,
                self.initial_marker->0@,
            ) <= last_occurrence(full_text@, self.terminal_marker->0@)) ==> r is None,
    {
        if !self.needs_truncation() {
            return Some(full_text.clone());
        }
        let initial: &String = match &self.initial_marker {
            Some(m) => m,
            None => {
                return None;
            },
        };
        let terminal: &String = match &self.terminal_marker {
            Some(m) => m,
            None => {
                return None;
            },
        };
        proof {
            lemma_last_occurrence(full_text@, initial@);
            lemma_last_occurrence(full_text@, terminal@);
        }
        let start_index: usize = match rfind_str(full_text.as_str(), initial.as_str()) {
            Some(i) => i,
            None => {
                return None;
            },
        };
        let terminal_index: usize = match rfind_str(full_text.as_str(), terminal.as_str()) {
            Some(i) => i,
            None => {
                return None;
            },
        };
        if start_index <= terminal_index {
            self.truncate(full_text)
        } else {
            None
        }
    }
}

impl Default for ViaScraper {
    fn default() -> (r: Self)
        ensures
            r.title@ == Seq::<char>::empty(),
            r.url@ == Seq::<char>::empty(),
            r.format@ == Seq::<char>::empty(),
            r.is_interview == false,
            r.initial_marker is None,
            r.terminal_marker is None,
    {
        ViaScraper {
            title: String::new(),
            url: String::new(),
            format: String::new(),
            is_interview: false,
            initial_marker: None,
            terminal_marker: None,
        }
    }
}

} // verus!
