use corpus_sourcing::torrents::{needs_fetch, ManifestError, ViaTorrent, LOG_FILE_NAME};
use corpus_sourcing::utils::{get_file_paths, RawPayloadEntry};

fn entry(path: &str, is_file: bool) -> RawPayloadEntry {
    RawPayloadEntry { path: String::from(path), is_file }
}

fn torrent() -> ViaTorrent {
    ViaTorrent { magnet: String::from("magnet:?xt=urn:btih:abc") }
}

#[test]
fn manifest_file_name_is_fixed() {
    assert_eq!(LOG_FILE_NAME, "downloaded_files.json");
}

#[test]
fn absent_manifest_requires_a_fetch() {
    assert_eq!(needs_fetch(0, None), Ok(true));
    assert_eq!(needs_fetch(7, None), Ok(true));
}

#[test]
fn malformed_manifest_is_fatal() {
    let manifest = String::from("{ not json");
    assert_eq!(needs_fetch(3, Some(&manifest)), Err(ManifestError::Malformed));
    let wrong_shape = String::from("{\"a\": 1}");
    assert_eq!(needs_fetch(3, Some(&wrong_shape)), Err(ManifestError::Malformed));
}

#[test]
fn empty_manifest_requires_a_fetch() {
    let manifest = String::from("[]");
    assert_eq!(needs_fetch(0, Some(&manifest)), Ok(true));
}

#[test]
fn matching_counts_skip_the_fetch() {
    let manifest = String::from("[\"data/X/a\", \"data/X/b\", \"data/X/c\"]");
    assert_eq!(needs_fetch(3, Some(&manifest)), Ok(false));
    assert_eq!(needs_fetch(2, Some(&manifest)), Ok(true));
    assert_eq!(needs_fetch(4, Some(&manifest)), Ok(true));
}

#[test]
fn file_entries_are_separated_from_directories() {
    let entries = vec![
        entry("scratch/dl", false),
        entry("scratch/dl/a.epub", true),
        entry("scratch/dl/sub", false),
        entry("scratch/dl/sub/b.pdf", true),
    ];
    let files = get_file_paths(&entries);
    assert_eq!(files, vec!["scratch/dl/a.epub", "scratch/dl/sub/b.pdf"]);
}

#[test]
fn extraction_plans_every_document_and_nothing_else() {
    let entries = vec![
        entry("root/dl", false),
        entry("root/dl/A Work.epub", true),
        entry("root/dl/Second Work.pdf", true),
        entry("root/dl/cover.jpg", true),
        entry("root/dl/readme.nfo", true),
        entry("root/dl/sub", false),
        entry("root/dl/sub/Third Work.txt", true),
    ];
    let author_root = String::from("data/Plato");
    let plan = torrent().extract_files(&entries, &author_root);

    assert_eq!(
        plan.logged_paths,
        vec!["data/Plato/A Work", "data/Plato/Second Work", "data/Plato/Third Work"],
    );
    assert_eq!(plan.moves.len(), 3);
    assert_eq!(plan.moves[0].source, "root/dl/A Work.epub");
    assert_eq!(plan.moves[0].destination, "data/Plato/A Work");
    assert_eq!(plan.moves[1].source, "root/dl/Second Work.pdf");
    assert_eq!(plan.moves[1].destination, "data/Plato/Second Work");
    assert_eq!(plan.moves[2].source, "root/dl/sub/Third Work.txt");
    assert_eq!(plan.moves[2].destination, "data/Plato/Third Work");

    assert_eq!(plan.directories, vec!["root/dl", "root/dl/sub"]);
    assert_eq!(plan.unrecognized, vec!["root/dl/readme.nfo"]);

    let reloaded: Vec<String> = serde_json::from_str(&plan.manifest_text).unwrap();
    assert_eq!(reloaded, plan.logged_paths);
}

#[test]
fn a_completed_reconciliation_makes_the_next_check_skip() {
    let entries = vec![
        entry("root/dl", false),
        entry("root/dl/a.epub", true),
        entry("root/dl/b.pdf", true),
        entry("root/dl/sub", false),
        entry("root/dl/c.txt", true),
    ];
    let author_root = String::from("data/Plato");
    let book = torrent();
    let plan = book.extract_files(&entries, &author_root);
    assert_eq!(plan.logged_paths.len(), 3);
    assert_eq!(plan.directories.len(), 2);

    // The three placements are now the files the driver observes at the root.
    assert_eq!(book.must_torrent(3, Some(&plan.manifest_text)), Ok(false));

    // One placed file deleted externally: the counts disagree again.
    assert_eq!(book.must_torrent(2, Some(&plan.manifest_text)), Ok(true));
}

#[test]
fn an_empty_scratch_root_plans_nothing() {
    let entries: Vec<RawPayloadEntry> = Vec::new();
    let author_root = String::from("data/Nobody");
    let plan = torrent().extract_files(&entries, &author_root);
    assert!(plan.logged_paths.is_empty());
    assert!(plan.moves.is_empty());
    assert!(plan.directories.is_empty());
    assert!(plan.unrecognized.is_empty());
    assert_eq!(plan.manifest_text, "[]");
    // An empty manifest never satisfies the idempotency check.
    assert_eq!(needs_fetch(0, Some(&plan.manifest_text)), Ok(true));
}
