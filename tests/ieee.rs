use ieee_style::addons::arxiv_prefix_applies;
use ieee_style::record::get_canonical_parent;
use ieee_style::text::{ordinal, parse_u32};
use ieee_style::{
    Affiliated, Date, EntryKind, Ieee, IntRange, Library, NumOrStr, PersonRole, QualifiedUrl,
    Record, Title,
};

fn title(s: &str) -> Option<Title> {
    Some(Title {
        value: s.to_string(),
        sentence_case: s.to_string(),
        title_case: s.to_string(),
    })
}

fn names(list: &[&str]) -> Vec<String> {
    list.iter().map(|s| s.to_string()).collect()
}

fn date(year: i32, month: Option<u8>, day: Option<u8>) -> Option<Date> {
    Some(Date { year, month, day })
}

fn cite(lib: &Library, i: usize) -> String {
    Ieee::new().format(lib, i).text()
}

fn add(lib: &mut Library, r: Record) -> usize {
    lib.add(r).expect("parents are held")
}

#[test]
fn new_has_style_defaults() {
    let s = Ieee::new();
    assert_eq!(s.et_al_threshold, Some(6));
    assert_eq!(s.title_case_min_len, Some(4));
    assert!(s.journal_abbreviations.is_empty());
}

#[test]
fn and_list_three_names() {
    assert_eq!(Ieee::new().and_list(&names(&["A", "B", "C"])), "A, B, and C");
}

#[test]
fn and_list_six_names_cut_short() {
    let six = names(&["A", "B", "C", "D", "E", "F"]);
    assert_eq!(Ieee::new().and_list(&six), "A, B, et al.");
}

#[test]
fn and_list_one_name() {
    assert_eq!(Ieee::new().and_list(&names(&["A"])), "A");
}

#[test]
fn and_list_two_names_keep_comma() {
    assert_eq!(Ieee::new().and_list(&names(&["A", "B"])), "A, and B");
}

#[test]
fn and_list_empty() {
    assert_eq!(Ieee::new().and_list(&Vec::new()), "");
}

#[test]
fn and_list_without_threshold_keeps_all() {
    let mut s = Ieee::new();
    s.et_al_threshold = None;
    let seven = names(&["A", "B", "C", "D", "E", "F", "G"]);
    assert_eq!(s.and_list(&seven), "A, B, C, D, E, F, and G");
}

#[test]
fn and_list_five_names_below_threshold() {
    let five = names(&["A", "B", "C", "D", "E"]);
    assert_eq!(Ieee::new().and_list(&five), "A, B, C, D, and E");
}

#[test]
fn chapter_prefers_direct_parent_over_conference() {
    let mut lib = Library::new();
    let conf = add(&mut lib, Record::new(EntryKind::Conference));
    let mut book = Record::new(EntryKind::Book);
    book.parents = vec![conf];
    let book = add(&mut lib, book);
    let mut ch = Record::new(EntryKind::Chapter);
    ch.parents = vec![book];
    let ch = add(&mut lib, ch);
    assert_eq!(get_canonical_parent(&lib, ch), Some(book));
    assert_eq!(get_canonical_parent(&lib, book), Some(conf));
}

#[test]
fn anthos_finds_anthology_further_up() {
    let mut lib = Library::new();
    let anth = add(&mut lib, Record::new(EntryKind::Anthology));
    let mut misc = Record::new(EntryKind::Misc);
    misc.parents = vec![anth];
    let misc = add(&mut lib, misc);
    let mut piece = Record::new(EntryKind::Anthos);
    piece.parents = vec![misc];
    let piece = add(&mut lib, piece);
    assert_eq!(get_canonical_parent(&lib, piece), Some(anth));
}

#[test]
fn entry_in_reference_work() {
    let mut lib = Library::new();
    let refw = add(&mut lib, Record::new(EntryKind::Reference));
    let mut e = Record::new(EntryKind::Entry);
    e.parents = vec![refw];
    let e = add(&mut lib, e);
    assert_eq!(get_canonical_parent(&lib, e), Some(refw));
}

#[test]
fn record_without_container_is_its_own() {
    let mut lib = Library::new();
    let a = add(&mut lib, Record::new(EntryKind::Article));
    assert_eq!(get_canonical_parent(&lib, a), None);
}

#[test]
fn library_refuses_parent_not_yet_held() {
    let mut lib = Library::new();
    let mut r = Record::new(EntryKind::Article);
    r.parents = vec![0];
    assert_eq!(lib.add(r), None);
    assert!(lib.records.is_empty());
}

#[test]
fn day_index_offset() {
    let s = Ieee::new();
    let first = Date { year: 2020, month: Some(0), day: Some(0) };
    assert_eq!(s.formt_date(&first), "Jan. 1, 2020");
    let last = Date { year: 2020, month: Some(0), day: Some(30) };
    assert_eq!(s.formt_date(&last), "Jan. 31, 2020");
}

#[test]
fn date_month_and_year_only() {
    let s = Ieee::new();
    assert_eq!(s.formt_date(&Date { year: 2020, month: Some(4), day: None }), "May 2020");
    assert_eq!(s.formt_date(&Date { year: 1999, month: None, day: Some(3) }), "1999");
    assert_eq!(s.formt_date(&Date { year: 1999, month: Some(12), day: None }), "1999");
}

#[test]
fn editors_stand_in_for_authors() {
    let mut lib = Library::new();
    let mut b = Record::new(EntryKind::Book);
    b.editors = names(&["A", "B"]);
    let b = add(&mut lib, b);
    assert_eq!(Ieee::new().get_author(&lib, b, b), "A, and B, Eds.");
}

#[test]
fn single_editor_label() {
    let mut lib = Library::new();
    let mut b = Record::new(EntryKind::Book);
    b.editors = names(&["A"]);
    let b = add(&mut lib, b);
    assert_eq!(Ieee::new().get_author(&lib, b, b), "A, Ed.");
}

#[test]
fn container_authors_stand_in() {
    let mut lib = Library::new();
    let mut book = Record::new(EntryKind::Book);
    book.authors = names(&["C. Writer"]);
    let book = add(&mut lib, book);
    let mut ch = Record::new(EntryKind::Chapter);
    ch.parents = vec![book];
    let ch = add(&mut lib, ch);
    assert_eq!(Ieee::new().get_author(&lib, ch, book), "C. Writer");
}

fn person(role: PersonRole, name: &str) -> Affiliated {
    Affiliated { role, name: name.to_string() }
}

#[test]
fn film_lists_directors() {
    let mut lib = Library::new();
    let mut v = Record::new(EntryKind::Video);
    v.affiliated = vec![person(PersonRole::Director, "S. Kubrick")];
    let v = add(&mut lib, v);
    assert_eq!(Ieee::new().get_author(&lib, v, v), "S. Kubrick, Director");
    let mut w = Record::new(EntryKind::Video);
    w.affiliated = vec![
        person(PersonRole::Director, "A"),
        person(PersonRole::Writer, "W"),
        person(PersonRole::Director, "B"),
    ];
    let w = add(&mut lib, w);
    assert_eq!(Ieee::new().get_author(&lib, w, w), "A, and B, Directors");
}

#[test]
fn series_lists_executive_producers() {
    let mut lib = Library::new();
    let mut v = Record::new(EntryKind::Video);
    v.affiliated = vec![person(PersonRole::ExecutiveProducer, "P")];
    let v = add(&mut lib, v);
    assert_eq!(Ieee::new().get_author(&lib, v, v), "P, Executive Prod");
}

#[test]
fn episode_lists_directors_then_writers() {
    let mut lib = Library::new();
    let mut series = Record::new(EntryKind::Video);
    series.issue = Some(NumOrStr::Number(2));
    series.volume = Some(IntRange { start: 1, end: 1 });
    let series = add(&mut lib, series);
    let mut ep = Record::new(EntryKind::Video);
    ep.parents = vec![series];
    ep.affiliated = vec![
        person(PersonRole::Writer, "W"),
        person(PersonRole::Director, "D"),
    ];
    let ep = add(&mut lib, ep);
    assert_eq!(Ieee::new().get_author(&lib, ep, ep), "D (Director), and W (Writer)");
}

fn journal_library(kind: EntryKind) -> (Library, usize) {
    let mut lib = Library::new();
    let mut j = Record::new(EntryKind::Periodical);
    j.title = title("Bar Journal");
    j.volume = Some(IntRange { start: 3, end: 3 });
    j.issue = Some(NumOrStr::Number(2));
    let j = add(&mut lib, j);
    let mut a = Record::new(kind);
    a.title = title("Foo");
    a.authors = names(&["A. Author"]);
    a.page_range = Some(IntRange { start: 10, end: 15 });
    a.date = date(2020, Some(2), None);
    a.parents = vec![j];
    let a = add(&mut lib, a);
    (lib, a)
}

#[test]
fn end_to_end_periodical() {
    let (lib, a) = journal_library(EntryKind::Chapter);
    assert_eq!(
        cite(&lib, a),
        "A. Author, “Foo,” in Bar Journal, vol. 3, no. 2, pp. 10-15, Mar. 2020."
    );
    let rich = Ieee::new().format(&lib, a);
    let italic: Vec<&str> =
        rich.runs.iter().filter(|r| r.italic).map(|r| r.text.as_str()).collect();
    assert_eq!(italic, vec!["Bar Journal"]);
}

#[test]
fn article_in_periodical_is_its_own_container() {
    let (lib, a) = journal_library(EntryKind::Article);
    assert_eq!(cite(&lib, a), "A. Author, “Foo” 2020, pp. 10-15.");
}

#[test]
fn quoted_title_without_fields_ends_inside_quote() {
    let mut lib = Library::new();
    let mut a = Record::new(EntryKind::Article);
    a.title = title("My title");
    a.authors = names(&["A. Author"]);
    let a = add(&mut lib, a);
    assert_eq!(cite(&lib, a), "A. Author, “My title.”");
}

#[test]
fn quoted_title_drops_comma_before_fields() {
    let mut lib = Library::new();
    let mut a = Record::new(EntryKind::Article);
    a.title = title("My title");
    a.authors = names(&["A. Author"]);
    a.volume = Some(IntRange { start: 3, end: 4 });
    let a = add(&mut lib, a);
    assert_eq!(cite(&lib, a), "A. Author, “My title” vols. 3-4.");
}

#[test]
fn conference_paper() {
    let mut lib = Library::new();
    let mut c = Record::new(EntryKind::Conference);
    c.title = title("ICML");
    c.location = Some("Paris".to_string());
    let c = add(&mut lib, c);
    let mut a = Record::new(EntryKind::Article);
    a.title = title("My title");
    a.authors = names(&["A. Author"]);
    a.serial_number = Some("7".to_string());
    a.date = date(2020, Some(5), None);
    a.parents = vec![c];
    let a = add(&mut lib, a);
    assert_eq!(
        cite(&lib, a),
        "A. Author, My title. Presented at ICML, Paris, Jun. 2020, Paper 7."
    );
}

#[test]
fn proceedings_paper() {
    let mut lib = Library::new();
    let mut p = Record::new(EntryKind::Proceedings);
    p.title = title("Proc. Things");
    p.editors = names(&["E. One", "E. Two"]);
    p.edition = Some(NumOrStr::Number(3));
    let p = add(&mut lib, p);
    let mut a = Record::new(EntryKind::Article);
    a.title = title("Paper");
    a.authors = names(&["A. Author"]);
    a.page_range = Some(IntRange { start: 5, end: 5 });
    a.doi = Some("10.1/x".to_string());
    a.date = date(2021, Some(0), Some(9));
    a.parents = vec![p];
    let a = add(&mut lib, a);
    assert_eq!(
        cite(&lib, a),
        "A. Author, “Paper,” in Proc. Things, E. One, and E. Two, Eds., 3rd ed., Jan. 10, 2021, p. 5, doi: 10.1/x."
    );
}

#[test]
fn book_with_publisher_and_language() {
    let mut lib = Library::new();
    let mut b = Record::new(EntryKind::Book);
    b.title = title("Title");
    b.authors = names(&["A. Author"]);
    b.publisher = Some("Springer".to_string());
    b.location = Some("Berlin".to_string());
    b.language = Some("de".to_string());
    b.date = date(2019, None, None);
    b.edition = Some(NumOrStr::Number(2));
    let b = add(&mut lib, b);
    assert_eq!(
        cite(&lib, b),
        "A. Author, Title, 2nd ed., Berlin: Springer (in German), 2019."
    );
}

#[test]
fn unknown_language_code_is_left_out() {
    let mut lib = Library::new();
    let mut b = Record::new(EntryKind::Book);
    b.title = title("Title");
    b.publisher = Some("Springer".to_string());
    b.language = Some("zz".to_string());
    let b = add(&mut lib, b);
    assert_eq!(cite(&lib, b), "Title, Springer.");
}

#[test]
fn untitled_chapter_gives_chapter_number() {
    let mut lib = Library::new();
    let mut b = Record::new(EntryKind::Book);
    b.title = title("Big Book");
    b.authors = names(&["A. Author"]);
    let b = add(&mut lib, b);
    let mut ch = Record::new(EntryKind::Chapter);
    ch.serial_number = Some("3".to_string());
    ch.parents = vec![b];
    let ch = add(&mut lib, ch);
    assert_eq!(cite(&lib, ch), "A. Author, Big Book, ch. 3.");
}

#[test]
fn nested_untitled_chapters_give_section() {
    let mut lib = Library::new();
    let mut b = Record::new(EntryKind::Book);
    b.title = title("Big Book");
    let b = add(&mut lib, b);
    let mut ch = Record::new(EntryKind::Chapter);
    ch.serial_number = Some("5".to_string());
    ch.parents = vec![b];
    let ch = add(&mut lib, ch);
    let mut sec = Record::new(EntryKind::Chapter);
    sec.serial_number = Some("2".to_string());
    sec.parents = vec![ch];
    let sec = add(&mut lib, sec);
    assert_eq!(cite(&lib, sec), "Big Book, ch. 2, sec. 5.");
}

#[test]
fn non_numeric_serials_are_dropped() {
    let mut lib = Library::new();
    let mut b = Record::new(EntryKind::Book);
    b.title = title("Big Book");
    let b = add(&mut lib, b);
    let mut ch = Record::new(EntryKind::Chapter);
    ch.serial_number = Some("IV".to_string());
    ch.parents = vec![b];
    let ch = add(&mut lib, ch);
    assert_eq!(cite(&lib, ch), "Big Book.");
}

fn preprint(host: &str, serial: &str) -> (Library, usize) {
    let mut lib = Library::new();
    let mut repo = Record::new(EntryKind::Repository);
    repo.title = title("Preprints");
    let repo = add(&mut lib, repo);
    let mut a = Record::new(EntryKind::Article);
    a.title = title("Deep nets");
    a.authors = names(&["A. Author"]);
    a.serial_number = Some(serial.to_string());
    a.date = date(2021, Some(0), None);
    a.url = Some(QualifiedUrl {
        value: "https://arxiv.org/abs/2101.00001".to_string(),
        host: Some(host.to_string()),
        visit_date: None,
    });
    a.parents = vec![repo];
    let a = add(&mut lib, a);
    (lib, a)
}

#[test]
fn preprint_on_arxiv_gets_prefix() {
    let (lib, a) = preprint("ArXiv.org", "2101.00001");
    assert_eq!(
        cite(&lib, a),
        "A. Author, “Deep nets” arXiv: 2101.00001, Jan. 2021. [Online]. Available: https://arxiv.org/abs/2101.00001"
    );
}

#[test]
fn preprint_serial_naming_arxiv_keeps_form() {
    let (lib, a) = preprint("arxiv.org", "arXiv:2101.00001");
    assert_eq!(
        cite(&lib, a),
        "A. Author, “Deep nets” arXiv:2101.00001, Jan. 2021. [Online]. Available: https://arxiv.org/abs/2101.00001"
    );
}

#[test]
fn arxiv_rule_cases() {
    assert!(arxiv_prefix_applies("2101.1", "arxiv.org", ""));
    assert!(arxiv_prefix_applies("2101.1", "example.org", "arxiv"));
    assert!(!arxiv_prefix_applies("arxiv:2101.1", "arxiv.org", "arxiv"));
    assert!(!arxiv_prefix_applies("2101.1", "example.org", "zenodo"));
}

#[test]
fn web_page_with_visit_date() {
    let mut lib = Library::new();
    let mut w = Record::new(EntryKind::Web);
    w.title = title("Home");
    w.publisher = Some("Acme".to_string());
    w.url = Some(QualifiedUrl {
        value: "https://acme.example".to_string(),
        host: Some("acme.example".to_string()),
        visit_date: date(2020, Some(2), Some(2)),
    });
    let w = add(&mut lib, w);
    assert_eq!(
        cite(&lib, w),
        "“Home” Acme. https://acme.example (accessed: Mar. 3, 2020)."
    );
    let rich = Ieee::new().format(&lib, w);
    assert!(rich.runs.iter().any(|r| r.no_hyphenation && r.text == "https://acme.example"));
}

#[test]
fn online_video_with_note() {
    let mut lib = Library::new();
    let mut v = Record::new(EntryKind::Video);
    v.title = title("The Film");
    v.affiliated = vec![person(PersonRole::Director, "S. Kubrick")];
    v.location = Some("USA".to_string());
    v.date = date(1968, None, None);
    v.note = Some("restored".to_string());
    v.url = Some(QualifiedUrl {
        value: "https://v.example".to_string(),
        host: None,
        visit_date: date(2022, Some(11), Some(0)),
    });
    let v = add(&mut lib, v);
    assert_eq!(
        cite(&lib, v),
        "S. Kubrick, Director, USA. The Film, (1968). Accessed: Dec. 1, 2022. [Online Video]. Available: https://v.example (restored)"
    );
}

#[test]
fn thesis_with_abbreviated_institution() {
    let mut lib = Library::new();
    let mut t = Record::new(EntryKind::Thesis);
    t.title = title("On things");
    t.authors = names(&["A. Student"]);
    t.organization = Some("Massachusetts Institute of Technology".to_string());
    t.location = Some("Cambridge, MA".to_string());
    t.date = date(2010, None, None);
    let t = add(&mut lib, t);
    let table = vec![("Massachusetts Institute of Technology".to_string(), "MIT".to_string())];
    let s = Ieee::new().with_journal_abbreviations(table);
    assert_eq!(
        s.format(&lib, t).text(),
        "A. Student, “On things” Thesis, MIT, Cambridge, MA, 2010."
    );
}

#[test]
fn patent_without_url() {
    let mut lib = Library::new();
    let mut p = Record::new(EntryKind::Patent);
    p.title = title("Widget");
    p.authors = names(&["I. Nventor"]);
    p.location = Some("U.S.".to_string());
    p.serial_number = Some("123".to_string());
    p.date = date(2001, Some(8), Some(10));
    let p = add(&mut lib, p);
    assert_eq!(
        cite(&lib, p),
        "I. Nventor, “Widget” U.S. Patent 123, Sep. 11, 2001."
    );
}

#[test]
fn report_without_url() {
    let mut lib = Library::new();
    let mut r = Record::new(EntryKind::Report);
    r.title = title("Findings");
    r.organization = Some("NASA".to_string());
    r.location = Some("Houston".to_string());
    r.serial_number = Some("TR-1".to_string());
    r.date = date(1990, Some(3), None);
    r.issue = Some(NumOrStr::Str("4b".to_string()));
    let r = add(&mut lib, r);
    assert_eq!(
        cite(&lib, r),
        "“Findings” NASA, Houston, Rep. TR-1, Apr. 1990, no. 4b."
    );
}

#[test]
fn legislation_with_session() {
    let mut lib = Library::new();
    let mut l = Record::new(EntryKind::Legislation);
    l.title = title("Clean Air Act");
    l.serial_number = Some("H.R. 1".to_string());
    l.edition = Some(NumOrStr::Str("101st Congress".to_string()));
    l.date = date(1990, None, None);
    let l = add(&mut lib, l);
    assert_eq!(cite(&lib, l), "101st Congress. (1990). H.R. 1, Clean Air Act.");
}

#[test]
fn manuscript_is_unpublished() {
    let mut lib = Library::new();
    let mut m = Record::new(EntryKind::Manuscript);
    m.title = title("Draft");
    m.authors = names(&["A"]);
    let m = add(&mut lib, m);
    assert_eq!(cite(&lib, m), "A, “Draft” unpublished.");
}

#[test]
fn anthology_series_in_parentheses() {
    let mut lib = Library::new();
    let mut series = Record::new(EntryKind::Anthology);
    series.title = title("Lecture Notes");
    series.issue = Some(NumOrStr::Number(42));
    let series = add(&mut lib, series);
    let mut vol = Record::new(EntryKind::Anthology);
    vol.title = title("Collected Works");
    vol.parents = vec![series];
    let vol = add(&mut lib, vol);
    let mut piece = Record::new(EntryKind::Anthos);
    piece.title = title("Poem");
    piece.authors = names(&["A"]);
    piece.parents = vec![vol];
    let piece = add(&mut lib, piece);
    assert_eq!(
        cite(&lib, piece),
        "A, “Poem,” in Collected Works (Lecture Notes, no. 42)."
    );
}

#[test]
fn parse_numbers_like_std() {
    assert_eq!(parse_u32("+7"), Some(7));
    assert_eq!(parse_u32("4294967295"), Some(4294967295));
    assert_eq!(parse_u32("4294967296"), None);
    assert_eq!(parse_u32("12a"), None);
    assert_eq!(parse_u32(""), None);
    assert_eq!(parse_u32("+"), None);
}

#[test]
fn ordinals() {
    assert_eq!(ordinal(2), "2nd");
    assert_eq!(ordinal(11), "11th");
    assert_eq!(ordinal(23), "23rd");
    assert_eq!(ordinal(101), "101st");
}
