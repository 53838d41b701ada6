use corpus_sourcing::authors::{
    find_raw_data_for_author, get_author_root, prepare_sources, Author, Channel,
};
use corpus_sourcing::http::ViaHTTP;
use corpus_sourcing::paths::Directories;
use corpus_sourcing::scraping::ViaScraper;
use corpus_sourcing::torrents::ViaTorrent;

#[test]
fn file_names_replace_spaces_and_append_the_format() {
    let mut book = ViaHTTP::default();
    book.title = String::from("Capital Vol I");
    book.format = String::from(".pdf");
    assert_eq!(book.get_file_name(), "Capital_Vol_I.pdf");

    let mut scraped = ViaScraper::default();
    scraped.title = String::from("Combat Liberalism");
    assert_eq!(scraped.get_file_name(), "Combat_Liberalism");
}

#[test]
fn an_existing_destination_skips_the_download() {
    let book = ViaHTTP::default();
    assert!(!book.must_download(true));
    assert!(book.must_download(false));

    let scraped = ViaScraper::default();
    assert!(!scraped.must_download(true));
    assert!(scraped.must_download(false));
}

#[test]
fn author_paths_are_derived_from_the_data_directory() {
    let data_dir = String::from("work/data");
    assert_eq!(get_author_root(&data_dir, "Plato"), "work/data/Plato");
    assert_eq!(
        find_raw_data_for_author(&data_dir, String::from("Plato")),
        "work/data/Plato/raw",
    );
    let mut author = Author::default();
    author.name = String::from("Plato");
    assert_eq!(author.set_path_to_raw_data(&data_dir), "work/data/Plato/raw");
}

#[test]
fn channels_are_driven_in_a_fixed_order() {
    let mut author = Author::default();
    assert_eq!(author.download_plan(), vec![]);

    author.books_via_http = Some(vec![ViaHTTP::default()]);
    assert_eq!(author.download_plan(), vec![Channel::Http]);

    author.books_via_scraper = Some(vec![ViaScraper::default()]);
    author.books_via_torrent = Some(vec![ViaTorrent { magnet: String::from("m") }]);
    assert_eq!(
        author.download_plan(),
        vec![Channel::Http, Channel::Scraper, Channel::Torrent],
    );

    author.books_via_http = None;
    assert_eq!(author.download_plan(), vec![Channel::Scraper, Channel::Torrent]);
}

#[test]
fn the_catalog_lists_twelve_authors_with_their_works() {
    let authors = prepare_sources();
    assert_eq!(authors.len(), 12);
    assert_eq!(authors[0].name, "Karl Marx");
    assert_eq!(authors[0].books_via_http.as_ref().unwrap().len(), 6);
    assert!(authors[0].books_via_scraper.is_none());

    assert_eq!(authors[1].name, "Mao Zedong");
    assert_eq!(authors[1].books_via_scraper.as_ref().unwrap().len(), 1);
    assert_eq!(authors[1].books_via_http.as_ref().unwrap().len(), 6);

    assert_eq!(authors[4].name, "Plato");
    assert_eq!(authors[4].books_via_torrent.as_ref().unwrap().len(), 1);

    assert_eq!(authors[11].name, "William Godwin");
    assert_eq!(authors[11].books_via_torrent.as_ref().unwrap().len(), 1);

    for author in &authors {
        assert!(!author.name.is_empty());
    }
}

#[test]
fn the_layout_is_rooted_at_the_parent_directory() {
    let parent = String::from("work");
    let dirs = Directories::get(&parent);
    assert_eq!(dirs.data, "work/data");
    assert_eq!(dirs.images, "work/images");
    assert_eq!(dirs.models, "work/models");
    assert_eq!(dirs.ocr_outputs, "work/OCR");
    assert_eq!(dirs.pdfs_after_ocr, "work/OCR/pdf");
    assert_eq!(dirs.txt_after_ocr, "work/OCR/pdf");
    assert_eq!(dirs.chroma, "work/chroma");
    assert_eq!(dirs.images_in_downloads, "work/images/images_in_downloads");

    let all = dirs.all_directories();
    assert_eq!(all.len(), 8);
    assert_eq!(all[0], "work/data");
    assert_eq!(all[7], "work/images/images_in_downloads");
}
