//! Payload classification by filename extension: a path is a document, an
//! image, or unrecognized, decided by a case-insensitive suffix match against
//! two fixed suffix sets.

use vstd::prelude::*;

use crate::strings::{last_index_of_char, lemma_last_index_of_char, rfind_char, str_ends_with};

verus! {

/// Scalar value of `c`, with ASCII upper-case letters folded to lower case.
pub open spec fn lower_val(c: char) -> int {
    if 65 <= c as int && c as int <= 90 {
        c as int + 32
    } else {
        c as int
    }
}

/// `suffix` matches the end of `s`, comparing ASCII letters without case.
pub open spec fn suffix_matches_ci(s: Seq<char>, suffix: Seq<char>) -> bool {
    &&& suffix.len() <= s.len()
    &&& forall|j: int|
        0 <= j < suffix.len() ==> lower_val(s[s.len() - suffix.len() + j]) == lower_val(suffix[j])
}

/// The recognized document suffixes: text, PDF, EPUB, MOBI, AZW3, and
/// sidecar metadata.
pub open spec fn document_suffixes() -> Seq<Seq<char>> {
    seq![
        seq!['.', 't', 'x', 't'],
        seq!['.', 'p', 'd', 'f'],
        seq!['.', 'e', 'p', 'u', 'b'],
        seq!['.', 'm', 'o', 'b', 'i'],
        seq!['.', 'a', 'z', 'w', '3'],
        seq!['.', 'o', 'p', 'f'],
    ]
}

/// The recognized image suffixes: JPEG and PNG.
pub open spec fn image_suffixes() -> Seq<Seq<char>> {
    seq![seq!['.', 'j', 'p', 'g'], seq!['.', 'p', 'n', 'g']]
}

/// `s` ends, ignoring ASCII case, with one of the document suffixes.
pub open spec fn is_document_path(s: Seq<char>) -> bool {
    exists|i: int|
        0 <= i < document_suffixes().len() && suffix_matches_ci(s, document_suffixes()[i])
}

/// `s` ends, ignoring ASCII case, with one of the image suffixes.
pub open spec fn is_image_path(s: Seq<char>) -> bool {
    exists|i: int| 0 <= i < image_suffixes().len() && suffix_matches_ci(s, image_suffixes()[i])
}

/// Scalar value of `c` folded to lower case, as an executable computation.
fn lower_u32(c: char) -> (r: u32)
    ensures
        r == lower_val(c),
{
    let v: u32 = c as u32;
    if 65 <= v && v <= 90 {
        v + 32
    } else {
        v
    }
}

/// Whether `suffix` matches the end of `s`, ignoring ASCII case.
fn has_suffix_ci(s: &str, suffix: &str) -> (r: bool)
    ensures
        r == suffix_matches_ci(s@, suffix@),
{
    let n: usize = s.unicode_len();
    let m: usize = suffix.unicode_len();
    if m > n {
        return false;
    }
    let mut k: usize = 0;
    while k < m
        invariant
            k <= m,
            n == s@.len(),
            m == suffix@.len(),
            m <= n,
            forall|j: int| 0 <= j < k ==> lower_val(s@[n - m + j]) == lower_val(suffix@[j]),
        decreases m - k,
    {
        let a: u32 = lower_u32(s.get_char(n - m + k));
        let b: u32 = lower_u32(suffix.get_char(k));
        if a != b {
            return false;
        }
        k = k + 1;
    }
    true
}

/// What a raw payload path is, judged by its extension alone.
#[derive(Clone, Copy, Debug, PartialEq, Eq, Structural)]
pub enum PayloadKind {
    Document,
    Image,
    Unrecognized,
}

/// Categorize `path` as document, image, or unrecognized by a
/// case-insensitive match of its extension against the two fixed suffix
/// sets. Document wins over image; unrecognized paths are reported by the
/// caller and never moved or deleted.
pub fn classify(path: &str) -> (r: PayloadKind)
    ensures
        (r == PayloadKind::Document) == is_document_path(path@),
        (r == PayloadKind::Image) == (!is_document_path(path@) && is_image_path(path@)),
        (r == PayloadKind::Unrecognized) == (!is_document_path(path@) && !is_image_path(path@)),
{
    proof {
        reveal_strlit(".txt");
        reveal_strlit(".pdf");
        reveal_strlit(".epub");
        reveal_strlit(".mobi");
        reveal_strlit(".azw3");
        reveal_strlit(".opf");
        reveal_strlit(".jpg");
        reveal_strlit(".png");
        assert(".txt"@ =~= document_suffixes()[0]);
        assert(".pdf"@ =~= document_suffixes()[1]);
        assert(".epub"@ =~= document_suffixes()[2]);
        assert(".mobi"@ =~= document_suffixes()[3]);
        assert(".azw3"@ =~= document_suffixes()[4]);
        assert(".opf"@ =~= document_suffixes()[5]);
        assert(".jpg"@ =~= image_suffixes()[0]);
        assert(".png"@ =~= image_suffixes()[1]);
    }
    let is_document = has_suffix_ci(path, ".txt") || has_suffix_ci(path, ".pdf")
        || has_suffix_ci(path, ".epub") || has_suffix_ci(path, ".mobi")
        || has_suffix_ci(path, ".azw3") || has_suffix_ci(path, ".opf");
    if is_document {
        return PayloadKind::Document;
    }
    let is_image = has_suffix_ci(path, ".jpg") || has_suffix_ci(path, ".png");
    if is_image {
        proof {
            assert(forall|i: int|
                0 <= i < document_suffixes().len() ==> !suffix_matches_ci(
                    path@,
                    document_suffixes()[i],
                ));
        }
        return PayloadKind::Image;
    }
    proof {
        assert(forall|i: int|
            0 <= i < document_suffixes().len() ==> !suffix_matches_ci(
                path@,
                document_suffixes()[i],
            ));
        assert(forall|i: int|
            0 <= i < image_suffixes().len() ==> !suffix_matches_ci(path@, image_suffixes()[i]));
    }
    PayloadKind::Unrecognized
}

/// The part of `path` after its last separator: the file name itself.
pub open spec fn file_part(path: Seq<char>) -> Seq<char> {
    path.subrange(last_index_of_char(path, '/') + 1, path.len() as int)
}

/// `name` without its extension: everything before the last dot, the whole
/// name when there is no dot or only a leading one.
pub open spec fn stem_of(name: Seq<char>) -> Seq<char> {
    if last_index_of_char(name, '.') <= 0 {
        name
    } else {
        name.subrange(0, last_index_of_char(name, '.'))
    }
}

/// The work base name `path` derives: its file name without the extension.
pub open spec fn base_name_of(path: Seq<char>) -> Seq<char> {
    stem_of(file_part(path))
}

/// The base name of the file at `file_name_or_path`: the part after the last
/// separator, without its extension.
pub fn get_base_name(file_name_or_path: &str) -> (r: String)
    ensures
        r@ == base_name_of(file_name_or_path@),
{
    proof {
        lemma_last_index_of_char(file_name_or_path@, '/');
    }
    let name: String = match rfind_char(file_name_or_path, '/') {
        Some(i) => {
            let n: usize = file_name_or_path.unicode_len();
            file_name_or_path.substring_char(i + 1, n).to_owned()
        },
        None => {
            proof {
                assert(file_part(file_name_or_path@) =~= file_name_or_path@);
            }
            file_name_or_path.to_owned()
        },
    };
    proof {
        lemma_last_index_of_char(name@, '.');
    }
    match rfind_char(name.as_str(), '.') {
        Some(d) => {
            if d > 0 {
                name.as_str().substring_char(0, d).to_owned()
            } else {
                name
            }
        },
        None => name,
    }
}

/// Whether `target` ends with one of `extensions`, compared exactly.
pub fn has_extension(target: &String, extensions: &[&str]) -> (r: bool)
    ensures
        r == exists|i: int|
            0 <= i < extensions@.len() && extensions@[i]@.is_suffix_of(target@),
{
    let n: usize = extensions.len();
    let mut i: usize = 0;
    while i < n
        invariant
            i <= n,
            n == extensions@.len(),
            forall|j: int| 0 <= j < i ==> !extensions@[j]@.is_suffix_of(target@),
        decreases n - i,
    {
        if str_ends_with(target.as_str(), extensions[i]) {
            return true;
        }
        i = i + 1;
    }
    false
}

} // verus!
