//! Reconciliation of a completed swarm transfer: decide whether a transfer
//! is needed at all, classify what the transfer produced, plan the
//! relocation of every document into its canonical per-work directory,
//! produce the replacement completion manifest, and schedule the transfer's
//! directory scaffolding for deletion. The driver executes the plan:
//! relocations first, then the manifest write, then cleanup — the manifest
//! must reach disk before any directory is deleted.

use vstd::prelude::*;

use crate::extensions::{
    base_name_of, classify, get_base_name, is_document_path, is_image_path, PayloadKind,
};
use crate::strings::path_join;
use crate::utils::{file_paths_of, get_file_paths, RawPayloadEntry};

verus! {

/// Name of the completion manifest file kept at each author root.
pub const LOG_FILE_NAME: &'static str = "downloaded_files.json";

/// The JSON text serde_json produces for a list of strings.
pub uninterp spec fn json_string_list(v: Seq<Seq<char>>) -> Seq<char>;

/// The list of strings a JSON text parses to, when it is a valid encoding
/// of one.
pub uninterp spec fn parsed_string_list(s: Seq<char>) -> Option<Seq<Seq<char>>>;

/// Relies on `serde_json::to_string` for `Vec<String>`: the encoding is a
/// function of the list alone, it cannot fail for this type (only a failing
/// `Serialize` impl or a non-string map key can), and `serde_json::from_str`
/// parses the produced text back to an equal list.
#[verifier::external_body]
fn encode_string_list(v: &Vec<String>) -> (r: String)
    ensures
        r@ == json_string_list(v.deep_view()),
        parsed_string_list(r@) == Some(v.deep_view()),
{
    serde_json::to_string(v).unwrap()
}

/// Relies on `serde_json::from_str` for `Vec<String>`: the result is a
/// function of the input text alone; a text that is not a JSON array of
/// strings yields an error, mapped to `None` here.
#[verifier::external_body]
fn decode_string_list(s: &str) -> (r: Option<Vec<String>>)
    ensures
        match r {
            Some(v) => parsed_string_list(s@) == Some(v.deep_view()),
            None => parsed_string_list(s@) is None,
        },
{
    serde_json::from_str::<Vec<String>>(s).ok()
}

/// What can go wrong for an author when reading back the completion
/// manifest. A malformed manifest is fatal for that author: it must not be
/// read as "nothing acquired".
#[derive(Clone, Copy, Debug, PartialEq, Eq, Structural)]
pub enum ManifestError {
    Malformed,
}

/// A fetch is required unless the manifest is non-empty and its entry count
/// equals the number of plain files at the author root. A coarse,
/// count-based proxy for completeness, preserved as such.
pub open spec fn fetch_required(files_in_root: int, logged: Seq<Seq<char>>) -> bool {
    !(logged.len() == files_in_root && logged.len() > 0)
}

/// The idempotency gate: whether a swarm fetch is still required, given the
/// number of plain files directly at the author root and the manifest text,
/// when a manifest file exists.
pub fn needs_fetch(files_in_root: usize, manifest_text: Option<&String>) -> (r: Result<
    bool,
    ManifestError,
>)
    ensures
        manifest_text is None ==> r == Ok::<bool, ManifestError>(true),
        manifest_text matches Some(m) ==> match parsed_string_list(m@) {
            Some(logged) => r == Ok::<bool, ManifestError>(
                fetch_required(files_in_root as int, logged),
            ),
            None => r == Err::<bool, ManifestError>(ManifestError::Malformed),
        },
{
    match manifest_text {
        None => Ok(true),
        Some(m) => match decode_string_list(m.as_str()) {
            None => Err(ManifestError::Malformed),
            Some(logged) => Ok(!(logged.len() == files_in_root && logged.len() > 0)),
        },
    }
}

/// The canonical directory a raw document at `path` is relocated into: the
/// author root joined with the work base name the file derives.
pub open spec fn dest_of(author_root: Seq<char>, path: Seq<char>) -> Seq<char> {
    author_root + "/"@ + base_name_of(path)
}

/// The document files among `paths`, in order: exactly those that are
/// relocated.
pub open spec fn doc_files(paths: Seq<Seq<char>>) -> Seq<Seq<char>>
    decreases paths.len(),
{
    if paths.len() == 0 {
        Seq::empty()
    } else if is_document_path(paths.last()) {
        doc_files(paths.drop_last()).push(paths.last())
    } else {
        doc_files(paths.drop_last())
    }
}

/// The canonical destinations of the relocated documents, in order: the
/// content of the replacement manifest.
pub open spec fn doc_dests(author_root: Seq<char>, paths: Seq<Seq<char>>) -> Seq<Seq<char>> {
    doc_files(paths).map_values(|p: Seq<char>| dest_of(author_root, p))
}

/// The files that are neither documents nor images: reported and left in
/// place, never moved and never deleted.
pub open spec fn unrecognized_files(paths: Seq<Seq<char>>) -> Seq<Seq<char>>
    decreases paths.len(),
{
    if paths.len() == 0 {
        Seq::empty()
    } else if !is_document_path(paths.last()) && !is_image_path(paths.last()) {
        unrecognized_files(paths.drop_last()).push(paths.last())
    } else {
        unrecognized_files(paths.drop_last())
    }
}

/// The directory entries of the enumeration: transfer scaffolding, every one
/// of them deleted once the manifest is saved.
pub open spec fn scaffold_dirs(entries: Seq<RawPayloadEntry>) -> Seq<Seq<char>>
    decreases entries.len(),
{
    if entries.len() == 0 {
        Seq::empty()
    } else if !entries.last().is_file {
        scaffold_dirs(entries.drop_last()).push(entries.last().path@)
    } else {
        scaffold_dirs(entries.drop_last())
    }
}

/// One relocation: a raw document and the canonical directory it moves into.
#[derive(Clone)]
pub struct PlannedMove {
    pub source: String,
    pub destination: String,
}

/// Everything a completed transfer requires of the filesystem, computed in
/// advance: which files move where, the canonical paths they end up at, the
/// replacement manifest recording them, the scaffolding directories to
/// delete afterwards, and the unrecognized files that stay untouched.
pub struct ExtractionPlan {
    pub moves: Vec<PlannedMove>,
    pub logged_paths: Vec<String>,
    pub manifest_text: String,
    pub directories: Vec<String>,
    pub unrecognized: Vec<String>,
}

/// A work acquired as a swarm bulk fetch.
#[derive(Clone)]
pub struct ViaTorrent {
    pub magnet: String,
}

impl ViaTorrent {
    /// A descriptor is well formed when its locator is non-empty.
    pub open spec fn wf(&self) -> bool {
        self.magnet@.len() > 0
    }

    /// Whether the transfer is still required: delegates to the manifest
    /// count check over what the driver observed at the author root.
    pub fn must_torrent(&self, files_in_root: usize, manifest_text: Option<&String>) -> (r: Result<
        bool,
        ManifestError,
    >)
        ensures
            manifest_text is None ==> r == Ok::<bool, ManifestError>(true),
            manifest_text matches Some(m) ==> match parsed_string_list(m@) {
                Some(logged) => r == Ok::<bool, ManifestError>(
                    fetch_required(files_in_root as int, logged),
                ),
                None => r == Err::<bool, ManifestError>(ManifestError::Malformed),
            },
    {
        needs_fetch(files_in_root, manifest_text)
    }

    /// Turn the enumeration of a completed transfer into the full
    /// reconciliation plan: every document file is scheduled to move into
    /// its canonical directory, the manifest text records exactly those
    /// destinations in order, every directory of the enumeration is
    /// scheduled for deletion, and unrecognized files are only reported.
    pub fn extract_files(&self, entries: &Vec<RawPayloadEntry>, author_root: &String) -> (plan:
        ExtractionPlan)
        ensures
            plan.logged_paths.deep_view() == doc_dests(author_root@, file_paths_of(entries@)),
            plan.manifest_text@ == json_string_list(
                doc_dests(author_root@, file_paths_of(entries@)),
            ),
            parsed_string_list(plan.manifest_text@) == Some(
                doc_dests(author_root@, file_paths_of(entries@)),
            ),
            plan.directories.deep_view() == scaffold_dirs(entries@),
            plan.unrecognized.deep_view() == unrecognized_files(file_paths_of(entries@)),
            plan.moves@.len() == doc_files(file_paths_of(entries@)).len(),
            forall|k: int|
                0 <= k < plan.moves@.len() ==> plan.moves@[k].source@ == doc_files(
                    file_paths_of(entries@),
                )[k] && plan.moves@[k].destination@ == dest_of(
                    author_root@,
                    doc_files(file_paths_of(entries@))[k],
                ),
    {
        let file_paths: Vec<String> = get_file_paths(entries);
        let mut directories: Vec<String> = Vec::new();
        let n: usize = entries.len();
        let mut i: usize = 0;
        while i < n
            invariant
                i <= n,
                n == entries@.len(),
                directories.deep_view() == scaffold_dirs(entries@.take(i as int)),
            decreases n - i,
        {
            proof {
                assert(entries@.take(i + 1).drop_last() =~= entries@.take(i as int));
            }
            if !entries[i].is_file {
                directories.push(entries[i].path.clone());
            }
            proof {
                assert(directories.deep_view() =~= scaffold_dirs(entries@.take(i + 1)));
            }
            i = i + 1;
        }
        proof {
            assert(entries@.take(n as int) =~= entries@);
        }
        let mut logged_paths: Vec<String> = Vec::new();
        let (moves, unrecognized) = move_files_to_destinations(
            author_root,
            &file_paths,
            &mut logged_paths,
        );
        let manifest_text: String = log_downloaded_files(&logged_paths);
        proof {
            assert(logged_paths.deep_view() =~= doc_dests(
                author_root@,
                file_paths_of(entries@),
            ));
        }
        ExtractionPlan { moves, logged_paths, manifest_text, directories, unrecognized }
    }
}

/// Plan the relocation of every document among `file_paths` into its
/// canonical directory under `author_root`, appending each destination to
/// `paths_of_downloaded_files`. Images are passed over for a separate
/// pipeline; unrecognized files are returned for reporting and stay where
/// they are.
fn move_files_to_destinations(
    author_root: &String,
    file_paths: &Vec<String>,
    paths_of_downloaded_files: &mut Vec<String>,
) -> (r: (Vec<PlannedMove>, Vec<String>))
    ensures
        final(paths_of_downloaded_files).deep_view() == old(
            paths_of_downloaded_files,
        ).deep_view() + doc_dests(author_root@, file_paths.deep_view()),
        r.0@.len() == doc_files(file_paths.deep_view()).len(),
        forall|k: int|
            0 <= k < r.0@.len() ==> r.0@[k].source@ == doc_files(file_paths.deep_view())[k]
                && r.0@[k].destination@ == dest_of(
                author_root@,
                doc_files(file_paths.deep_view())[k],
            ),
        r.1.deep_view() == unrecognized_files(file_paths.deep_view()),
{
    let ghost initial: Seq<Seq<char>> = paths_of_downloaded_files.deep_view();
    let mut moves: Vec<PlannedMove> = Vec::new();
    let mut unrecognized: Vec<String> = Vec::new();
    let n: usize = file_paths.len();
    let mut i: usize = 0;
    while i < n
        invariant
            i <= n,
            n == file_paths@.len(),
            paths_of_downloaded_files.deep_view() == initial + doc_dests(
                author_root@,
                file_paths.deep_view().take(i as int),
            ),
            moves@.len() == doc_files(file_paths.deep_view().take(i as int)).len(),
            forall|k: int|
                0 <= k < moves@.len() ==> moves@[k].source@ == doc_files(
                    file_paths.deep_view().take(i as int),
                )[k] && moves@[k].destination@ == dest_of(
                    author_root@,
                    doc_files(file_paths.deep_view().take(i as int))[k],
                ),
            unrecognized.deep_view() == unrecognized_files(
                file_paths.deep_view().take(i as int),
            ),
        decreases n - i,
    {
        proof {
            let fp = file_paths.deep_view();
            assert(fp.take(i + 1).drop_last() =~= fp.take(i as int));
        }
        let file: &String = &file_paths[i];
        match classify(file.as_str()) {
            PayloadKind::Document => {
                let base: String = get_base_name(file.as_str());
                let destination: String = path_join(author_root.as_str(), base.as_str());
                let ghost d: Seq<char> = destination@;
                let ghost pre: Seq<Seq<char>> = paths_of_downloaded_files.deep_view();
                moves.push(PlannedMove { source: file.clone(), destination: destination.clone() });
                paths_of_downloaded_files.push(destination);
                proof {
                    let fp = file_paths.deep_view();
                    assert(file@ == fp[i as int]);
                    assert(d == dest_of(author_root@, fp[i as int]));
                    assert(paths_of_downloaded_files.deep_view() =~= pre.push(d));
                    assert(doc_files(fp.take(i + 1)) =~= doc_files(fp.take(i as int)).push(
                        fp[i as int],
                    ));
                    assert(doc_dests(author_root@, fp.take(i + 1)) =~= doc_dests(
                        author_root@,
                        fp.take(i as int),
                    ).push(dest_of(author_root@, fp[i as int])));
                    assert(pre.push(d) =~= initial + doc_dests(author_root@, fp.take(i + 1)));
                    assert(unrecognized.deep_view() =~= unrecognized_files(fp.take(i + 1)));
                }
            },
            PayloadKind::Image => {
                proof {
                    let fp = file_paths.deep_view();
                    assert(doc_dests(author_root@, fp.take(i + 1)) =~= doc_dests(
                        author_root@,
                        fp.take(i as int),
                    ));
                    assert(unrecognized.deep_view() =~= unrecognized_files(fp.take(i + 1)));
                }
            },
            PayloadKind::Unrecognized => {
                unrecognized.push(file.clone());
                proof {
                    let fp = file_paths.deep_view();
                    assert(doc_dests(author_root@, fp.take(i + 1)) =~= doc_dests(
                        author_root@,
                        fp.take(i as int),
                    ));
                    assert(unrecognized.deep_view() =~= unrecognized_files(fp.take(i + 1)));
                }
            },
        }
        i = i + 1;
    }
    proof {
        assert(file_paths.deep_view().take(n as int) =~= file_paths.deep_view());
    }
    (moves, unrecognized)
}

/// The replacement manifest content recording the canonical paths placed for
/// an author. The driver removes the previous manifest file, then writes
/// this text in full: the manifest is replaced wholesale, never appended.
fn log_downloaded_files(paths_of_downloaded_files: &Vec<String>) -> (r: String)
    ensures
        r@ == json_string_list(paths_of_downloaded_files.deep_view()),
        parsed_string_list(r@) == Some(paths_of_downloaded_files.deep_view()),
{
    encode_string_list(paths_of_downloaded_files)
}

/// Reading the saved manifest back yields exactly the canonical destinations
/// of the documents the reconciliation relocated, in order: the manifest and
/// the materialized filesystem state agree.
pub proof fn lemma_manifest_matches_placements(
    manifest: Seq<char>,
    author_root: Seq<char>,
    paths: Seq<Seq<char>>,
)
    requires
        parsed_string_list(manifest) == Some(doc_dests(author_root, paths)),
    ensures
        parsed_string_list(manifest) matches Some(logged) && logged.len() == doc_files(
            paths,
        ).len() && forall|k: int|
            0 <= k < logged.len() ==> logged[k] == dest_of(author_root, doc_files(paths)[k]),
{
}

/// Cleanup is complete and exact: every directory of the enumeration is
/// scheduled for deletion, and only paths that were enumerated as
/// directories are.
pub proof fn lemma_cleanup_covers_scaffolding(entries: Seq<RawPayloadEntry>)
    ensures
        forall|i: int|
            0 <= i < entries.len() && !entries[i].is_file ==> scaffold_dirs(entries).contains(
                entries[i].path@,
            ),
        forall|p: Seq<char>|
            scaffold_dirs(entries).contains(p) ==> exists|i: int|
                0 <= i < entries.len() && !entries[i].is_file && entries[i].path@ == p,
    decreases entries.len(),
{
    if entries.len() > 0 {
        lemma_cleanup_covers_scaffolding(entries.drop_last());
        assert forall|i: int|
            0 <= i < entries.len() && !entries[i].is_file implies scaffold_dirs(
            entries,
        ).contains(entries[i].path@) by {
            if i < entries.len() - 1 {
                assert(entries.drop_last()[i] == entries[i]);
                assert(scaffold_dirs(entries.drop_last()).contains(entries[i].path@));
                let j = choose|j: int|
                    0 <= j < scaffold_dirs(entries.drop_last()).len() && scaffold_dirs(
                        entries.drop_last(),
                    )[j] == entries[i].path@;
                if !entries.last().is_file {
                    assert(scaffold_dirs(entries)[j] == entries[i].path@);
                } else {
                    assert(scaffold_dirs(entries)[j] == entries[i].path@);
                }
            } else {
                assert(scaffold_dirs(entries).last() == entries[i].path@);
            }
        }
        assert forall|p: Seq<char>| scaffold_dirs(entries).contains(p) implies exists|i: int|
            0 <= i < entries.len() && !entries[i].is_file && entries[i].path@ == p by {
            let j = choose|j: int|
                0 <= j < scaffold_dirs(entries).len() && scaffold_dirs(entries)[j] == p;
            if !entries.last().is_file && j == scaffold_dirs(entries).len() - 1 {
                assert(entries[entries.len() - 1].path@ == p);
            } else {
                assert(scaffold_dirs(entries.drop_last())[j] == p);
                assert(scaffold_dirs(entries.drop_last()).contains(p));
                let i = choose|i: int|
                    0 <= i < entries.drop_last().len() && !entries.drop_last()[i].is_file
                        && entries.drop_last()[i].path@ == p;
                assert(entries[i].path@ == p);
            }
        }
    }
}

/// Classification decides relocation exactly: only documents are relocated,
/// every unrecognized file is reported, and a reported file is never among
/// the relocated ones — it stays at its original path.
pub proof fn lemma_unrecognized_left_in_place(paths: Seq<Seq<char>>)
    ensures
        forall|p: Seq<char>| doc_files(paths).contains(p) ==> is_document_path(p),
        forall|i: int|
            0 <= i < paths.len() && !is_document_path(paths[i]) && !is_image_path(paths[i])
                ==> unrecognized_files(paths).contains(paths[i]),
        forall|p: Seq<char>|
            unrecognized_files(paths).contains(p) ==> !is_document_path(p) && !is_image_path(p),
        forall|p: Seq<char>|
            unrecognized_files(paths).contains(p) ==> !doc_files(paths).contains(p),
    decreases paths.len(),
{
    if paths.len() > 0 {
        lemma_unrecognized_left_in_place(paths.drop_last());
        assert forall|p: Seq<char>| doc_files(paths).contains(p) implies is_document_path(p) by {
            let j = choose|j: int| 0 <= j < doc_files(paths).len() && doc_files(paths)[j] == p;
            if is_document_path(paths.last()) && j == doc_files(paths).len() - 1 {
            } else {
                assert(doc_files(paths.drop_last()).contains(p));
            }
        }
        assert forall|i: int|
            0 <= i < paths.len() && !is_document_path(paths[i]) && !is_image_path(
                paths[i],
            ) implies unrecognized_files(paths).contains(paths[i]) by {
            if i < paths.len() - 1 {
                assert(paths.drop_last()[i] == paths[i]);
                assert(unrecognized_files(paths.drop_last()).contains(paths[i]));
                let j = choose|j: int|
                    0 <= j < unrecognized_files(paths.drop_last()).len() && unrecognized_files(
                        paths.drop_last(),
                    )[j] == paths[i];
                assert(unrecognized_files(paths)[j] == paths[i]);
            } else {
                assert(unrecognized_files(paths).last() == paths[i]);
            }
        }
        assert forall|p: Seq<char>| unrecognized_files(paths).contains(p) implies !is_document_path(
            p,
        ) && !is_image_path(p) by {
            let j = choose|j: int|
                0 <= j < unrecognized_files(paths).len() && unrecognized_files(paths)[j] == p;
            if !is_document_path(paths.last()) && !is_image_path(paths.last()) && j
                == unrecognized_files(paths).len() - 1 {
            } else {
                assert(unrecognized_files(paths.drop_last())[j] == p);
                assert(unrecognized_files(paths.drop_last()).contains(p));
            }
        }
    }
}

} // verus!
