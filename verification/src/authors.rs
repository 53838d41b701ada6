//! Authors, their declared works, and the per-author dispatch: the catalog
//! of who is acquired over which channel, the canonical author-root layout,
//! and the order the channels are driven in. One author's channels are
//! processed strictly one after another — the swarm reconciliation mutates
//! the file counts the manifest check depends on.

use vstd::prelude::*;

use crate::http::{download_required, ViaHTTP};
use crate::scraping::ViaScraper;
use crate::strings::path_join;
use crate::torrents::{fetch_required, ViaTorrent};

verus! {

/// The root under which one author's canonical work directories live:
/// the data directory joined with the author's name.
pub open spec fn author_root_of(data_dir: Seq<char>, author_name: Seq<char>) -> Seq<char> {
    data_dir + "/"@ + author_name
}

/// The raw-data directory under an author's root.
pub open spec fn raw_root_of(data_dir: Seq<char>, author_name: Seq<char>) -> Seq<char> {
    author_root_of(data_dir, author_name) + "/raw"@
}

/// The author root for `author_name` under `data_dir`.
pub fn get_author_root(data_dir: &String, author_name: &str) -> (r: String)
    ensures
        r@ == author_root_of(data_dir@, author_name@),
{
    path_join(data_dir.as_str(), author_name)
}

/// The raw-data directory for `author_name` under `data_dir`.
pub fn find_raw_data_for_author(data_dir: &String, author_name: String) -> (r: String)
    ensures
        r@ == raw_root_of(data_dir@, author_name@),
{
    get_author_root(data_dir, author_name.as_str()).concat("/raw")
}

/// One acquisition channel.
#[derive(Clone, Copy, Debug, PartialEq, Eq, Structural)]
pub enum Channel {
    Http,
    Scraper,
    Torrent,
}

/// An author and the works declared for acquisition, partitioned by
/// channel. Constructed once from the static catalog and immutable
/// thereafter.
#[derive(Clone)]
pub struct Author {
    pub name: String,
    pub books_via_http: Option<Vec<ViaHTTP>>,
    pub books_via_scraper: Option<Vec<ViaScraper>>,
    pub books_via_torrent: Option<Vec<ViaTorrent>>,
    pub biographers_and_compilers: Option<Vec<String>>,
}

/// The order the channels of one author are driven in: every configured
/// channel, document fetch first, then scraping, then swarm transfer. Each
/// channel's full work list completes before the next begins.
pub open spec fn channel_plan(author: &Author) -> Seq<Channel> {
    (if author.books_via_http is Some {
        seq![Channel::Http]
    } else {
        Seq::empty()
    }) + (if author.books_via_scraper is Some {
        seq![Channel::Scraper]
    } else {
        Seq::empty()
    }) + (if author.books_via_torrent is Some {
        seq![Channel::Torrent]
    } else {
        Seq::empty()
    })
}

impl Author {
    /// An author is well formed when the name is non-empty and every
    /// declared work is: titles derive file and directory names, locators
    /// drive transfers.
    pub open spec fn wf(&self) -> bool {
        &&& self.name@.len() > 0
        &&& (self.books_via_http matches Some(bs) ==> forall|i: int|
            0 <= i < bs@.len() ==> bs@[i].wf())
        &&& (self.books_via_scraper matches Some(bs) ==> forall|i: int|
            0 <= i < bs@.len() ==> bs@[i].wf())
        &&& (self.books_via_torrent matches Some(bs) ==> forall|i: int|
            0 <= i < bs@.len() ==> bs@[i].wf())
    }

    /// The raw-data directory of this author under `data_dir`. The driver
    /// creates the author directory when it is missing.
    pub fn set_path_to_raw_data(&self, data_dir: &String) -> (r: String)
        ensures
            r@ == raw_root_of(data_dir@, self.name@),
    {
        find_raw_data_for_author(data_dir, self.name.clone())
    }

    /// The channels to drive for this author, in order.
    pub fn download_plan(&self) -> (r: Vec<Channel>)
        ensures
            r@ == channel_plan(self),
    {
        let mut r: Vec<Channel> = Vec::new();
        if self.books_via_http.is_some() {
            r.push(Channel::Http);
        }
        if self.books_via_scraper.is_some() {
            r.push(Channel::Scraper);
        }
        if self.books_via_torrent.is_some() {
            r.push(Channel::Torrent);
        }
        proof {
            assert(r@ =~= channel_plan(self));
        }
        r
    }
}

impl Default for Author {
    fn default() -> (r: Self)
        ensures
            r.name@ == Seq::<char>::empty(),
            r.books_via_http is None,
            r.books_via_scraper is None,
            r.books_via_torrent is None,
            r.biographers_and_compilers is None,
    {
        Author {
            name: String::new(),
            books_via_http: None,
            books_via_scraper: None,
            books_via_torrent: None,
            biographers_and_compilers: None,
        }
    }
}

/// Idempotency of a completed run: a destination file that now exists makes
/// the document and scrape channels skip, and a saved non-empty manifest
/// whose entry count equals the file count at the author root makes the
/// swarm channel skip — the second run mutates nothing.
pub proof fn lemma_second_run_skips(
    destination_exists: bool,
    logged: Seq<Seq<char>>,
    files_in_root: int,
)
    requires
        destination_exists,
        files_in_root == logged.len(),
        logged.len() > 0,
    ensures
        !download_required(destination_exists),
        !fetch_required(files_in_root, logged),
{
}

/// The static catalog: every author and the works declared for
/// acquisition, exactly as configured. Loaded once at process start and
/// never mutated.
pub fn prepare_sources() -> (r: Vec<Author>)
    ensures
        r@.len() == 12,
        forall|i: int| 0 <= i < r@.len() ==> (#[trigger] r@[i]).wf(),
        r@[0].name@ == "Karl Marx"@,
        (r@[0].books_via_http matches Some(bs) && bs@.len() == 6),
        r@[0].books_via_scraper is None,
        r@[0].books_via_torrent is None,
        r@[1].name@ == "Mao Zedong"@,
        (r@[1].books_via_http matches Some(bs) && bs@.len() == 6),
        (r@[1].books_via_scraper matches Some(bs) && bs@.len() == 1),
        r@[1].books_via_torrent is None,
        r@[2].name@ == "Marcus Garvey"@,
        (r@[2].books_via_http matches Some(bs) && bs@.len() == 1),
        r@[2].books_via_scraper is None,
        r@[2].books_via_torrent is None,
        r@[3].name@ == "Swami Vivekananda"@,
        (r@[3].books_via_http matches Some(bs) && bs@.len() == 1),
        r@[3].books_via_scraper is None,
        r@[3].books_via_torrent is None,
        r@[4].name@ == "Plato"@,
        r@[4].books_via_http is None,
        r@[4].books_via_scraper is None,
        (r@[4].books_via_torrent matches Some(bs) && bs@.len() == 1),
        r@[5].name@ == "Mohandas Karamchand Ghandi"@,
        (r@[5].books_via_http matches Some(bs) && bs@.len() == 4),
        r@[5].books_via_scraper is None,
        r@[5].books_via_torrent is None,
        r@[6].name@ == "Lala Lajpat Rai"@,
        (r@[6].books_via_http matches Some(bs) && bs@.len() == 2),
        r@[6].books_via_scraper is None,
        r@[6].books_via_torrent is None,
        r@[7].name@ == "Jos√© Rizal"@,
        r@[7].books_via_http is None,
        (r@[7].books_via_scraper matches Some(bs) && bs@.len() == 2),
        r@[7].books_via_torrent is None,
        r@[8].name@ == "Vladimir Lenin"@,
        (r@[8].books_via_http matches Some(bs) && bs@.len() == 2),
        r@[8].books_via_scraper is None,
        r@[8].books_via_torrent is None,
        r@[9].name@ == "Sun Yat-sen"@,
        (r@[9].books_via_http matches Some(bs) && bs@.len() == 2),
        r@[9].books_via_scraper is None,
        r@[9].books_via_torrent is None,
        r@[10].name@ == "Charles Darwin"@,
        (r@[10].books_via_http matches Some(bs) && bs@.len() == 2),
        r@[10].books_via_scraper is None,
        r@[10].books_via_torrent is None,
        r@[11].name@ == "William Godwin"@,
        r@[11].books_via_http is None,
        r@[11].books_via_scraper is None,
        (r@[11].books_via_torrent matches Some(bs) && bs@.len() == 1),
{
    let mut a0_http: Vec<ViaHTTP> = Vec::new();
    a0_http.push(ViaHTTP {
        title: "Capital Vol I".to_owned(),
        url: "https://www.marxists.org/archive/marx/works/download/pdf/Capital-Volume-I.pdf".to_owned(),
        format: String::new(),
        needs_ocr: false,
        start_page: None,
        end_page: None,
    });
    a0_http.push(ViaHTTP {
        title: "Capital Vol II".to_owned(),
        url: "https://www.marxists.org/archive/marx/works/download/pdf/Capital-Volume-II.pdf".to_owned(),
        format: String::new(),
        needs_ocr: false,
        start_page: None,
        end_page: None,
    });
    a0_http.push(ViaHTTP {
        title: "Capital Vol III".to_owned(),
        url: "https://www.marxists.org/archive/marx/works/download/pdf/Capital-Volume-III.pdf".to_owned(),
        format: String::new(),
        needs_ocr: false,
        start_page: None,
        end_page: None,
    });
    a0_http.push(ViaHTTP {
        title: "Value, Price & Profit".to_owned(),
        url: "https://www.marxists.org/archive/marx/works/download/pdf/value-price-profit.pdf".to_owned(),
        format: String::new(),
        needs_ocr: false,
        start_page: None,
        end_page: None,
    });
    a0_http.push(ViaHTTP {
        title: "Wage, Labour & Capital".to_owned(),
        url: "https://www.marxists.org/archive/marx/works/download/pdf/wage-labour-capital.pdf".to_owned(),
        format: String::new(),
        needs_ocr: false,
        start_page: None,
        end_page: None,
    });
    a0_http.push(ViaHTTP {
        title: "The Communist Manifesto".to_owned(),
        url: "https://www.marxists.org/archive/marx/works/download/pdf/Manifesto.pdf".to_owned(),
        format: String::new(),
        needs_ocr: false,
        start_page: Some(13),
        end_page: Some(66),
    });
    let a0 = Author {
        name: "Karl Marx".to_owned(),
        books_via_http: Some(a0_http),
        books_via_scraper: None,
        books_via_torrent: None,
        biographers_and_compilers: None,
    };
    proof {
        reveal_strlit("Karl Marx");
        reveal_strlit("Capital Vol I");
        reveal_strlit("Capital Vol II");
        reveal_strlit("Capital Vol III");
        reveal_strlit("Value, Price & Profit");
        reveal_strlit("Wage, Labour & Capital");
        reveal_strlit("The Communist Manifesto");
        assert(a0.wf());
    }
    let mut a1_http: Vec<ViaHTTP> = Vec::new();
    a1_http.push(ViaHTTP {
        title: "Oppose Book Worship".to_owned(),
        url: "https://www.marxists.org/ebooks/mao/Oppose_Book_Worship_-_Mao_Zedong.pdf".to_owned(),
        format: ".pdf".to_owned(),
        needs_ocr: false,
        start_page: Some(2),
        end_page: Some(12),
    });
    a1_http.push(ViaHTTP {
        title: "Selected Works of Mao Tse-Tung Volume I".to_owned(),
        url: "https://www.marxists.org/reference/archive/mao/selected-works/sw-in-pdf/sw-flp-1965-v1.pdf".to_owned(),
        format: ".pdf".to_owned(),
        needs_ocr: false,
        start_page: Some(20),
        end_page: Some(353),
    });
    a1_http.push(ViaHTTP {
        title: "Selected Works of Mao Tse-Tung Volume II".to_owned(),
        url: "https://www.marxists.org/reference/archive/mao/selected-works/sw-in-pdf/sw-flp-1965-v2.pdf".to_owned(),
        format: ".pdf".to_owned(),
        needs_ocr: false,
        start_page: Some(18),
        end_page: Some(473),
    });
    a1_http.push(ViaHTTP {
        title: "Selected Works of Mao Tse-Tung Volume III".to_owned(),
        url: "https://www.marxists.org/reference/archive/mao/selected-works/sw-in-pdf/sw-flp-1965-v3.pdf".to_owned(),
        format: ".pdf".to_owned(),
        needs_ocr: false,
        start_page: Some(16),
        end_page: Some(345),
    });
    a1_http.push(ViaHTTP {
        title: "Selected Works of Mao Tse-Tung Volume IV".to_owned(),
        url: "https://www.marxists.org/reference/archive/mao/selected-works/sw-in-pdf/sw-flp-1965-v4.pdf".to_owned(),
        format: ".pdf".to_owned(),
        needs_ocr: false,
        start_page: Some(17),
        end_page: Some(463),
    });
    a1_http.push(ViaHTTP {
        title: "Selected Works of Mao Tse-Tung Volume V".to_owned(),
        url: "https://www.marxists.org/reference/archive/mao/selected-works/sw-in-pdf/sw-flp-1971-v5.pdf".to_owned(),
        format: ".pdf".to_owned(),
        needs_ocr: false,
        start_page: Some(22),
        end_page: Some(524),
    });
    let mut a1_scrape: Vec<ViaScraper> = Vec::new();
    a1_scrape.push(ViaScraper {
        title: "Combat Liberalism".to_owned(),
        url: "https://www.marxists.org/reference/archive/mao/selected-works/volume-2/mswv2_03.htm".to_owned(),
        format: String::new(),
        is_interview: false,
        initial_marker: Some("We stand for".to_owned()),
        terminal_marker: Some("Transcription".to_owned()),
    });
    let a1 = Author {
        name: "Mao Zedong".to_owned(),
        books_via_http: Some(a1_http),
        books_via_scraper: Some(a1_scrape),
        books_via_torrent: None,
        biographers_and_compilers: None,
    };
    proof {
        reveal_strlit("Mao Zedong");
        reveal_strlit("Oppose Book Worship");
        reveal_strlit("Selected Works of Mao Tse-Tung Volume I");
        reveal_strlit("Selected Works of Mao Tse-Tung Volume II");
        reveal_strlit("Selected Works of Mao Tse-Tung Volume III");
        reveal_strlit("Selected Works of Mao Tse-Tung Volume IV");
        reveal_strlit("Selected Works of Mao Tse-Tung Volume V");
        reveal_strlit("Combat Liberalism");
        assert(a1.wf());
    }
    let mut a2_http: Vec<ViaHTTP> = Vec::new();
    a2_http.push(ViaHTTP {
        title: "The Philosophy & Opinions of Marcus Garvey".to_owned(),
        url: "https://www.jpanafrican.org/ebooks/eBook%20Phil%20and%20Opinions.pdf".to_owned(),
        format: ".pdf".to_owned(),
        needs_ocr: false,
        start_page: Some(3),
        end_page: Some(62),
    });
    let a2 = Author {
        name: "Marcus Garvey".to_owned(),
        books_via_http: Some(a2_http),
        books_via_scraper: None,
        books_via_torrent: None,
        biographers_and_compilers: None,
    };
    proof {
        reveal_strlit("Marcus Garvey");
        reveal_strlit("The Philosophy & Opinions of Marcus Garvey");
        assert(a2.wf());
    }
    let mut a3_http: Vec<ViaHTTP> = Vec::new();
    a3_http.push(ViaHTTP {
        title: "The Complete Works of Swami Vivekananda".to_owned(),
        url: "https://ia801608.us.archive.org/9/items/complete-works-of-swami-vivekananda-all-volumes-swami-vivekananda/Complete%20Works%20of%20Swami%20Vivekananda%20-%20%20All%20Volumes%20-%20Swami%20Vivekananda.pdf".to_owned(),
        format: "pdf".to_owned(),
        needs_ocr: false,
        start_page: Some(81),
        end_page: Some(5162),
    });
    let a3 = Author {
        name: "Swami Vivekananda".to_owned(),
        books_via_http: Some(a3_http),
        books_via_scraper: None,
        books_via_torrent: None,
        biographers_and_compilers: None,
    };
    proof {
        reveal_strlit("Swami Vivekananda");
        reveal_strlit("The Complete Works of Swami Vivekananda");
        assert(a3.wf());
    }
    let mut a4_torrent: Vec<ViaTorrent> = Vec::new();
    a4_torrent.push(ViaTorrent { magnet: "magnet:?xt=urn:btih:0D25C216E5B606BCF2B7732688A9D1EBDF6997C5&dn=Plato%20-%20Complete%20Works%20(Hackett%20Pub.)%20(retail%20epub%2C%20mobi)&tr=udp%3A%2F%2Ftracker.opentrackr.org%3A1337&tr=udp%3A%2F%2Fopen.stealth.si%3A80%2Fannounce&tr=udp%3A%2F%2Ftracker.torrent.eu.org%3A451%2Fannounce&tr=udp%3A%2F%2Ftracker.bittor.pw%3A1337%2Fannounce&tr=udp%3A%2F%2Fpublic.popcorn-tracker.org%3A6969%2Fannounce&tr=udp%3A%2F%2Ftracker.dler.org%3A6969%2Fannounce&tr=udp%3A%2F%2Fexodus.desync.com%3A6969&tr=udp%3A%2F%2Fopen.demonii.com%3A1337%2Fannounce".to_owned() });
    let a4 = Author {
        name: "Plato".to_owned(),
        books_via_http: None,
        books_via_scraper: None,
        books_via_torrent: Some(a4_torrent),
        biographers_and_compilers: None,
    };
    proof {
        reveal_strlit("Plato");
        reveal_strlit("magnet:?xt=urn:btih:0D25C216E5B606BCF2B7732688A9D1EBDF6997C5&dn=Plato%20-%20Complete%20Works%20(Hackett%20Pub.)%20(retail%20epub%2C%20mobi)&tr=udp%3A%2F%2Ftracker.opentrackr.org%3A1337&tr=udp%3A%2F%2Fopen.stealth.si%3A80%2Fannounce&tr=udp%3A%2F%2Ftracker.torrent.eu.org%3A451%2Fannounce&tr=udp%3A%2F%2Ftracker.bittor.pw%3A1337%2Fannounce&tr=udp%3A%2F%2Fpublic.popcorn-tracker.org%3A6969%2Fannounce&tr=udp%3A%2F%2Ftracker.dler.org%3A6969%2Fannounce&tr=udp%3A%2F%2Fexodus.desync.com%3A6969&tr=udp%3A%2F%2Fopen.demonii.com%3A1337%2Fannounce");
        assert(a4.wf());
    }
    let mut a5_http: Vec<ViaHTTP> = Vec::new();
    a5_http.push(ViaHTTP {
        title: "An Autobiography: The Story of My Experiments with Truth".to_owned(),
        url: "https://www.mkgandhi.org/ebks/An-Autobiography.pdf".to_owned(),
        format: String::new(),
        needs_ocr: false,
        start_page: Some(16),
        end_page: Some(556),
    });
    a5_http.push(ViaHTTP {
        title: "Hind Swaraj or Indian Home Rule".to_owned(),
        url: "https://www.mkgandhi.org/ebks/hind_swaraj.pdf".to_owned(),
        format: String::new(),
        needs_ocr: false,
        start_page: Some(12),
        end_page: Some(89),
    });
    a5_http.push(ViaHTTP {
        title: "The Bhagavad Gita, According to Gandhi".to_owned(),
        url: "https://ia800904.us.archive.org/10/items/InnerEngineeringAYogisGuideToJoy_20190116/Mahatma_gandhiThe_bhagavad_gita_according_to_gandhi.pdf".to_owned(),
        format: String::new(),
        needs_ocr: false,
        start_page: Some(10),
        end_page: Some(177),
    });
    a5_http.push(ViaHTTP {
        title: "Non-Violent Resistance".to_owned(),
        url: "https://archive.org/details/nonviolentresist00mkga/page/n9/mode/2up".to_owned(),
        format: String::new(),
        needs_ocr: false,
        start_page: Some(16),
        end_page: Some(388),
    });
    let a5 = Author {
        name: "Mohandas Karamchand Ghandi".to_owned(),
        books_via_http: Some(a5_http),
        books_via_scraper: None,
        books_via_torrent: None,
        biographers_and_compilers: None,
    };
    proof {
        reveal_strlit("Mohandas Karamchand Ghandi");
        reveal_strlit("An Autobiography: The Story of My Experiments with Truth");
        reveal_strlit("Hind Swaraj or Indian Home Rule");
        reveal_strlit("The Bhagavad Gita, According to Gandhi");
        reveal_strlit("Non-Violent Resistance");
        assert(a5.wf());
    }
    let mut a6_http: Vec<ViaHTTP> = Vec::new();
    a6_http.push(ViaHTTP {
        title: "The Story of My Deportation".to_owned(),
        url: "https://ia601503.us.archive.org/21/items/in.ernet.dli.2015.19903/2015.19903.The--Story-Of-My-Deportation_text.pdf".to_owned(),
        format: String::new(),
        needs_ocr: true,
        start_page: Some(8),
        end_page: Some(274),
    });
    a6_http.push(ViaHTTP {
        title: "Young India: An Interpretation and a History of the Nationalist Movement from Within".to_owned(),
        url: "https://ia800802.us.archive.org/21/items/16RaiYoungindia/16-rai-youngindia.pdf".to_owned(),
        format: String::new(),
        needs_ocr: false,
        start_page: Some(7),
        end_page: Some(294),
    });
    let a6 = Author {
        name: "Lala Lajpat Rai".to_owned(),
        books_via_http: Some(a6_http),
        books_via_scraper: None,
        books_via_torrent: None,
        biographers_and_compilers: None,
    };
    proof {
        reveal_strlit("Lala Lajpat Rai");
        reveal_strlit("The Story of My Deportation");
        reveal_strlit("Young India: An Interpretation and a History of the Nationalist Movement from Within");
        assert(a6.wf());
    }
    let mut a7_scrape: Vec<ViaScraper> = Vec::new();
    a7_scrape.push(ViaScraper {
        title: "The Social Cancer".to_owned(),
        url: "https://www.geocities.ws/qcpujoserizal/Rizal/pdf/Noli.pdf".to_owned(),
        format: String::new(),
        is_interview: false,
        initial_marker: None,
        terminal_marker: None,
    });
    a7_scrape.push(ViaScraper {
        title: "The Reign of Greed".to_owned(),
        url: "https://www.gutenberg.org/files/10676/10676-h/10676-h.htm".to_owned(),
        format: String::new(),
        is_interview: false,
        initial_marker: Some("On the Upper Deck".to_owned()),
        terminal_marker: Some("Colophon".to_owned()),
    });
    let a7 = Author {
        name: "Jos√© Rizal".to_owned(),
        books_via_http: None,
        books_via_scraper: Some(a7_scrape),
        books_via_torrent: None,
        biographers_and_compilers: None,
    };
    proof {
        reveal_strlit("Jos√© Rizal");
        reveal_strlit("The Social Cancer");
        reveal_strlit("The Reign of Greed");
        assert(a7.wf());
    }
    let mut a8_http: Vec<ViaHTTP> = Vec::new();
    a8_http.push(ViaHTTP {
        title: "What Is to Be Done?: Burning Questions of our Movements".to_owned(),
        url: "https://www.marxists.org/ebooks/lenin/what-is-to-be-done.pdf".to_owned(),
        format: String::new(),
        needs_ocr: false,
        start_page: Some(7),
        end_page: Some(124),
    });
    a8_http.push(ViaHTTP {
        title: "The State and Revolution".to_owned(),
        url: "https://www.marxists.org/ebooks/lenin/state-and-revolution.pdf".to_owned(),
        format: String::new(),
        needs_ocr: false,
        start_page: Some(7),
        end_page: Some(83),
    });
    let a8 = Author {
        name: "Vladimir Lenin".to_owned(),
        books_via_http: Some(a8_http),
        books_via_scraper: None,
        books_via_torrent: None,
        biographers_and_compilers: None,
    };
    proof {
        reveal_strlit("Vladimir Lenin");
        reveal_strlit("What Is to Be Done?: Burning Questions of our Movements");
        reveal_strlit("The State and Revolution");
        assert(a8.wf());
    }
    let mut a9_http: Vec<ViaHTTP> = Vec::new();
    a9_http.push(ViaHTTP {
        title: "The Three Principles of the People".to_owned(),
        url: "https://chinese.larouchepub.com/wp-content/uploads/2017/05/San-Min-Chu-I_ALL-en.pdf".to_owned(),
        format: String::new(),
        needs_ocr: false,
        start_page: Some(3),
        end_page: Some(74),
    });
    a9_http.push(ViaHTTP {
        title: "The International Development of China".to_owned(),
        url: "https://chinese.larouchepub.com/wp-content/uploads/2017/05/sun_IDC-en.pdf".to_owned(),
        format: String::new(),
        needs_ocr: false,
        start_page: Some(15),
        end_page: Some(305),
    });
    let a9 = Author {
        name: "Sun Yat-sen".to_owned(),
        books_via_http: Some(a9_http),
        books_via_scraper: None,
        books_via_torrent: None,
        biographers_and_compilers: None,
    };
    proof {
        reveal_strlit("Sun Yat-sen");
        reveal_strlit("The Three Principles of the People");
        reveal_strlit("The International Development of China");
        assert(a9.wf());
    }
    let mut a10_http: Vec<ViaHTTP> = Vec::new();
    a10_http.push(ViaHTTP {
        title: "The Three Principles of the People".to_owned(),
        url: "https://chinese.larouchepub.com/wp-content/uploads/2017/05/San-Min-Chu-I_ALL-en.pdf".to_owned(),
        format: String::new(),
        needs_ocr: false,
        start_page: Some(3),
        end_page: Some(74),
    });
    a10_http.push(ViaHTTP {
        title: "The International Development of China".to_owned(),
        url: "https://chinese.larouchepub.com/wp-content/uploads/2017/05/sun_IDC-en.pdf".to_owned(),
        format: String::new(),
        needs_ocr: false,
        start_page: Some(15),
        end_page: Some(305),
    });
    let mut a10_bio: Vec<String> = Vec::new();
    a10_bio.push("Larkum, Aurthur".to_owned());
    a10_bio.push("Litchfield H.E. (ed.)".to_owned());
    a10_bio.push("Krauss, Ernt".to_owned());
    a10_bio.push("Barrett, Paul (ed.)".to_owned());
    a10_bio.push("Burkhardt, Frederick (ed.)".to_owned());
    let a10 = Author {
        name: "Charles Darwin".to_owned(),
        books_via_http: Some(a10_http),
        books_via_scraper: None,
        books_via_torrent: None,
        biographers_and_compilers: Some(a10_bio),
    };
    proof {
        reveal_strlit("Charles Darwin");
        reveal_strlit("The Three Principles of the People");
        reveal_strlit("The International Development of China");
        assert(a10.wf());
    }
    let mut a11_torrent: Vec<ViaTorrent> = Vec::new();
    a11_torrent.push(ViaTorrent { magnet: "magnet:?xt=urn:btih:8657B7A1D87DAF74731FECA2284460A397BA399D&dn=William%20Godwin%20-%20Essential%20Works%20of%20Anarchism%20(16%20books)&tr=udp%3A%2F%2Ftracker.opentrackr.org%3A1337&tr=udp%3A%2F%2Fopen.stealth.si%3A80%2Fannounce&tr=udp%3A%2F%2Ftracker.torrent.eu.org%3A451%2Fannounce&tr=udp%3A%2F%2Ftracker.bittor.pw%3A1337%2Fannounce&tr=udp%3A%2F%2Fpublic.popcorn-tracker.org%3A6969%2Fannounce&tr=udp%3A%2F%2Ftracker.dler.org%3A6969%2Fannounce&tr=udp%3A%2F%2Fexodus.desync.com%3A6969&tr=udp%3A%2F%2Fopen.demonii.com%3A1337%2Fannounce".to_owned() });
    let a11 = Author {
        name: "William Godwin".to_owned(),
        books_via_http: None,
        books_via_scraper: None,
        books_via_torrent: Some(a11_torrent),
        biographers_and_compilers: None,
    };
    proof {
        reveal_strlit("William Godwin");
        reveal_strlit("magnet:?xt=urn:btih:8657B7A1D87DAF74731FECA2284460A397BA399D&dn=William%20Godwin%20-%20Essential%20Works%20of%20Anarchism%20(16%20books)&tr=udp%3A%2F%2Ftracker.opentrackr.org%3A1337&tr=udp%3A%2F%2Fopen.stealth.si%3A80%2Fannounce&tr=udp%3A%2F%2Ftracker.torrent.eu.org%3A451%2Fannounce&tr=udp%3A%2F%2Ftracker.bittor.pw%3A1337%2Fannounce&tr=udp%3A%2F%2Fpublic.popcorn-tracker.org%3A6969%2Fannounce&tr=udp%3A%2F%2Ftracker.dler.org%3A6969%2Fannounce&tr=udp%3A%2F%2Fexodus.desync.com%3A6969&tr=udp%3A%2F%2Fopen.demonii.com%3A1337%2Fannounce");
        assert(a11.wf());
    }
    let mut authors: Vec<Author> = Vec::new();
    authors.push(a0);
    authors.push(a1);
    authors.push(a2);
    authors.push(a3);
    authors.push(a4);
    authors.push(a5);
    authors.push(a6);
    authors.push(a7);
    authors.push(a8);
    authors.push(a9);
    authors.push(a10);
    authors.push(a11);
    authors
}

} // verus!
