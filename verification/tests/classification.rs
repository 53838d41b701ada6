use corpus_sourcing::extensions::{classify, get_base_name, has_extension, PayloadKind};

#[test]
fn every_document_extension_is_recognized() {
    assert_eq!(classify("work.txt"), PayloadKind::Document);
    assert_eq!(classify("work.pdf"), PayloadKind::Document);
    assert_eq!(classify("work.epub"), PayloadKind::Document);
    assert_eq!(classify("work.mobi"), PayloadKind::Document);
    assert_eq!(classify("work.azw3"), PayloadKind::Document);
    assert_eq!(classify("work.opf"), PayloadKind::Document);
}

#[test]
fn every_image_extension_is_recognized() {
    assert_eq!(classify("cover.jpg"), PayloadKind::Image);
    assert_eq!(classify("cover.png"), PayloadKind::Image);
}

#[test]
fn classification_ignores_ascii_case() {
    assert_eq!(classify("WORK.PDF"), PayloadKind::Document);
    assert_eq!(classify("Work.EpUb"), PayloadKind::Document);
    assert_eq!(classify("Cover.PNG"), PayloadKind::Image);
}

#[test]
fn other_extensions_are_unrecognized() {
    assert_eq!(classify("notes.docx"), PayloadKind::Unrecognized);
    assert_eq!(classify("archive.zip"), PayloadKind::Unrecognized);
    assert_eq!(classify("noextension"), PayloadKind::Unrecognized);
    assert_eq!(classify(""), PayloadKind::Unrecognized);
    assert_eq!(classify("pdf"), PayloadKind::Unrecognized);
}

#[test]
fn classification_looks_at_the_full_path() {
    assert_eq!(classify("scratch/books/A Title.epub"), PayloadKind::Document);
    assert_eq!(classify("scratch.pdf/readme"), PayloadKind::Unrecognized);
}

#[test]
fn has_extension_matches_any_listed_suffix() {
    let target = String::from("dir/book.epub");
    assert!(has_extension(&target, &[".txt", ".epub"]));
    assert!(!has_extension(&target, &[".txt", ".pdf"]));
    assert!(!has_extension(&target, &[]));
}

#[test]
fn has_extension_is_case_sensitive_on_its_own() {
    let target = String::from("BOOK.EPUB");
    assert!(!has_extension(&target, &[".epub"]));
    let lowered = target.to_lowercase();
    assert!(has_extension(&lowered, &[".epub"]));
}

#[test]
fn base_name_strips_directories_and_extension() {
    assert_eq!(get_base_name("a/b/Work Name.epub"), "Work Name");
    assert_eq!(get_base_name("book.pdf"), "book");
    assert_eq!(get_base_name("archive.tar.gz"), "archive.tar");
    assert_eq!(get_base_name("plain"), "plain");
    assert_eq!(get_base_name(".hidden"), ".hidden");
    assert_eq!(get_base_name("dir/"), "");
}
