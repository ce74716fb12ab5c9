use scraper::{Html, Selector};
use sipbot::errors::SipError;
use sipbot::extract::{
    extract_posts, history_from_page, parse_element_to_posts, post_from_item, posts_from_items,
    wrap_category_fault,
};
use sipbot::markup::{compile_selector, RawItem, RawPage, Selectors};
use sipbot::post::SipPostType;
use sipbot::text::{is_white_space, join_trimmed, trim_text};

fn page(general: &str, important: &str) -> String {
    format!(
        "<!DOCTYPE html><html><head><title>SIP</title></head><body>\
         <div class=\"header\"><p>not an announcement</p></div>\
         <div class=\"news-box\"><h3>Vesti</h3><ul>{}</ul></div>\
         <div class=\"news-box\"><h3>Obavestenja</h3><ul>{}</ul></div>\
         </body></html>",
        general, important
    )
}

fn item(date: &str, title: &str, content: &str, href: &str) -> String {
    format!(
        "<li><p>{}</p><h4>{}</h4><p>{}</p><a href=\"{}\">dalje</a></li>",
        date, title, content, href
    )
}

fn texts(pieces: &[&str]) -> Vec<String> {
    pieces.iter().map(|p| p.to_string()).collect()
}

fn raw(paragraphs: &[&[&str]], headings: &[&[&str]], anchors: &[Option<&str>]) -> RawItem {
    RawItem {
        paragraphs: paragraphs.iter().map(|p| texts(p)).collect(),
        headings: headings.iter().map(|h| texts(h)).collect(),
        anchors: anchors.iter().map(|a| a.map(|s| s.to_string())).collect(),
    }
}

fn whole_item() -> RawItem {
    raw(&[&[" 1.2.2024. "], &["Body"]], &[&["Title"]], &[Some(" /a ")])
}

#[test]
fn extracts_both_categories_in_document_order() {
    let html = page(
        &format!(
            "{}{}",
            item("01.02.2024.", "Prva vest", "Sadrzaj prve", "/vesti/1"),
            item("02.02.2024.", "Druga vest", "Sadrzaj druge", "/vesti/2")
        ),
        &item("03.02.2024.", "Vazno", "Sadrzaj vaznog", "https://sip.example/obavestenja/9"),
    );
    let history = extract_posts(&html).unwrap();
    assert_eq!(history.general.len(), 2);
    assert_eq!(history.important.len(), 1);
    let first = &history.general[0];
    assert_eq!(first.post_type, SipPostType::New);
    assert_eq!(first.date, "01.02.2024.");
    assert_eq!(first.title, "Prva vest");
    assert_eq!(first.content, "Sadrzaj prve");
    assert_eq!(first.link, "/vesti/1");
    assert_eq!(history.general[1].title, "Druga vest");
    assert_eq!(history.general[1].link, "/vesti/2");
    let imp = &history.important[0];
    assert_eq!(imp.post_type, SipPostType::Important);
    assert_eq!(imp.date, "03.02.2024.");
    assert_eq!(imp.title, "Vazno");
    assert_eq!(imp.content, "Sadrzaj vaznog");
    assert_eq!(imp.link, "https://sip.example/obavestenja/9");
}

#[test]
fn extraction_trims_every_field() {
    let html = page(
        &item("\n   01.02.2024.  \t", "  Naslov \n", "\t Sadrzaj  ", "  /vesti/1 \n"),
        "",
    );
    let history = extract_posts(&html).unwrap();
    let post = &history.general[0];
    assert_eq!(post.date, "01.02.2024.");
    assert_eq!(post.title, "Naslov");
    assert_eq!(post.content, "Sadrzaj");
    assert_eq!(post.link, "/vesti/1");
}

#[test]
fn text_nodes_are_trimmed_one_by_one_and_joined() {
    let html = page(
        "<li><p> 1. <b> 2. </b> 2024. </p><h4> A <i> B </i></h4><p>x <span> y</span></p>\
         <a href=\"/l\">dalje</a></li>",
        "",
    );
    let history = extract_posts(&html).unwrap();
    let post = &history.general[0];
    assert_eq!(post.date, "1.2.2024.");
    assert_eq!(post.title, "AB");
    assert_eq!(post.content, "xy");
}

#[test]
fn content_is_the_second_paragraph() {
    let html = page(
        "<li><p>date</p><h4>title</h4><p>second</p><p>third</p><a href=\"/l\">x</a>\
         <a href=\"/other\">y</a><h4>later heading</h4></li>",
        "",
    );
    let history = extract_posts(&html).unwrap();
    let post = &history.general[0];
    assert_eq!(post.date, "date");
    assert_eq!(post.content, "second");
    assert_eq!(post.title, "title");
    assert_eq!(post.link, "/l");
}

#[test]
fn empty_lists_give_empty_categories() {
    let history = extract_posts(&page("", "")).unwrap();
    assert!(history.general.is_empty());
    assert!(history.important.is_empty());
}

#[test]
fn container_without_a_list_gives_an_empty_category() {
    let html = "<html><body><div class=\"news-box\"></div>\
                <div class=\"news-box\"><p>no list here</p></div></body></html>";
    let history = extract_posts(html).unwrap();
    assert!(history.general.is_empty());
    assert!(history.important.is_empty());
}

#[test]
fn missing_containers_are_a_post_error() {
    let none = extract_posts("<html><body><p>maintenance</p></body></html>");
    assert_eq!(none.unwrap_err(), SipError::PostError("Missing posts".to_string()));
    let one = extract_posts(
        "<html><body><div class=\"news-box\"><ul></ul></div></body></html>",
    );
    assert_eq!(one.unwrap_err(), SipError::PostError("Missing posts".to_string()));
    let empty = extract_posts("");
    assert_eq!(empty.unwrap_err(), SipError::PostError("Missing posts".to_string()));
}

#[test]
fn item_without_anchor_fails_the_whole_page() {
    let html = page(
        &format!(
            "{}{}{}",
            item("d1", "t1", "c1", "/1"),
            "<li><p>d2</p><h4>t2</h4><p>c2</p></li>",
            item("d3", "t3", "c3", "/3")
        ),
        &item("d", "t", "c", "/i"),
    );
    let err = extract_posts(&html).unwrap_err();
    assert_eq!(
        err,
        SipError::PostParseError("Post parse error: Error parsing link".to_string())
    );
}

#[test]
fn fault_in_the_important_category_fails_the_page_too() {
    let html = page(&item("d", "t", "c", "/g"), "<li><p>d</p><h4>t</h4><p>c</p></li>");
    let err = extract_posts(&html).unwrap_err();
    assert_eq!(
        err,
        SipError::PostParseError("Post parse error: Error parsing link".to_string())
    );
}

#[test]
fn each_missing_part_has_its_own_detail() {
    let cases = [
        ("<li><h4>t</h4><a href=\"/l\">x</a></li>", "Error parsing date"),
        ("<li><p>d</p><p>c</p><a href=\"/l\">x</a></li>", "Error parsing title"),
        ("<li><p>d</p><h4>t</h4><a href=\"/l\">x</a></li>", "Error parsing content"),
        ("<li><p>d</p><h4>t</h4><p>c</p></li>", "Error parsing link"),
        ("<li><p>d</p><h4>t</h4><p>c</p><a>x</a></li>", "Error parsing hyperlink"),
        ("<li></li>", "Error parsing date"),
    ];
    for (markup, detail) in cases {
        let err = extract_posts(&page(markup, "")).unwrap_err();
        assert_eq!(err, SipError::PostParseError(format!("Post parse error: {}", detail)));
    }
}

#[test]
fn the_first_faulty_item_is_the_one_reported() {
    let html = page(
        "<li><p>d</p><h4>t</h4><p>c</p><a>no address</a></li><li><h4>no date</h4></li>",
        "",
    );
    let err = extract_posts(&html).unwrap_err();
    assert_eq!(
        err,
        SipError::PostParseError("Post parse error: Error parsing hyperlink".to_string())
    );
}

#[test]
fn general_fault_is_reported_before_important_fault() {
    let html = page("<li><p>d</p></li>", "<li><h4>t</h4></li>");
    let err = extract_posts(&html).unwrap_err();
    assert_eq!(
        err,
        SipError::PostParseError("Post parse error: Error parsing title".to_string())
    );
}

#[test]
fn parse_element_reads_one_container() {
    let html = page(
        &format!("{}{}", item(" d1 ", " t1 ", " c1 ", " /1 "), item("d2", "t2", "c2", "/2")),
        &item("d", "t", "c", "/i"),
    );
    let document = Html::parse_document(&html);
    let boxes = Selector::parse("div.news-box").unwrap();
    let mut found = document.select(&boxes);
    let left = found.next().unwrap();
    let right = found.next().unwrap();
    let posts = parse_element_to_posts(left, SipPostType::New).unwrap();
    assert_eq!(posts.len(), 2);
    assert_eq!(posts[0].date, "d1");
    assert_eq!(posts[0].title, "t1");
    assert_eq!(posts[0].content, "c1");
    assert_eq!(posts[0].link, "/1");
    assert_eq!(posts[0].post_type, SipPostType::New);
    assert_eq!(posts[1].link, "/2");
    let tagged = parse_element_to_posts(right, SipPostType::Important).unwrap();
    assert_eq!(tagged.len(), 1);
    assert_eq!(tagged[0].post_type, SipPostType::Important);
    assert_eq!(tagged[0].link, "/i");
}

#[test]
fn parse_element_reports_the_bare_fault() {
    let html = page("<li><p>d</p><h4>t</h4><p>c</p></li>", "");
    let document = Html::parse_document(&html);
    let boxes = Selector::parse("div.news-box").unwrap();
    let left = document.select(&boxes).next().unwrap();
    let err = parse_element_to_posts(left, SipPostType::New).unwrap_err();
    assert_eq!(err, SipError::PostParseError("Error parsing link".to_string()));
}

#[test]
fn items_are_list_entries_at_any_depth() {
    let html = "<html><body><div class=\"news-box\"><section><ul>\
                <li><div><p>d</p><h4>t</h4><div><p>c</p></div><span><a href=\"/deep\">x</a>\
                </span></div></li></ul></section></div><div class=\"news-box\"></div>\
                </body></html>";
    let history = extract_posts(html).unwrap();
    assert_eq!(history.general.len(), 1);
    assert_eq!(history.general[0].content, "c");
    assert_eq!(history.general[0].link, "/deep");
}

#[test]
fn post_from_item_builds_the_post() {
    let post = post_from_item(&whole_item(), SipPostType::Important).unwrap();
    assert_eq!(post.post_type, SipPostType::Important);
    assert_eq!(post.date, "1.2.2024.");
    assert_eq!(post.title, "Title");
    assert_eq!(post.content, "Body");
    assert_eq!(post.link, "/a");
}

#[test]
fn post_from_item_names_what_is_missing() {
    let no_date = raw(&[], &[&["t"]], &[Some("/a")]);
    let no_title = raw(&[&["d"], &["c"]], &[], &[Some("/a")]);
    let no_content = raw(&[&["d"]], &[&["t"]], &[Some("/a")]);
    let no_link = raw(&[&["d"], &["c"]], &[&["t"]], &[]);
    let no_address = raw(&[&["d"], &["c"]], &[&["t"]], &[None, Some("/later")]);
    let nothing = raw(&[], &[], &[]);
    let cases = [
        (no_date, "Error parsing date"),
        (no_title, "Error parsing title"),
        (no_content, "Error parsing content"),
        (no_link, "Error parsing link"),
        (no_address, "Error parsing hyperlink"),
        (nothing, "Error parsing date"),
    ];
    for (item, detail) in cases {
        let err = post_from_item(&item, SipPostType::New).unwrap_err();
        assert_eq!(err, SipError::PostParseError(detail.to_string()));
    }
}

#[test]
fn title_is_checked_before_content() {
    let item = raw(&[&["d"]], &[], &[]);
    let err = post_from_item(&item, SipPostType::New).unwrap_err();
    assert_eq!(err, SipError::PostParseError("Error parsing title".to_string()));
}

#[test]
fn empty_parts_are_present_parts() {
    let item = raw(&[&[], &[]], &[&[]], &[Some("")]);
    let post = post_from_item(&item, SipPostType::New).unwrap();
    assert_eq!(post.date, "");
    assert_eq!(post.title, "");
    assert_eq!(post.content, "");
    assert_eq!(post.link, "");
}

#[test]
fn posts_from_items_stops_at_the_first_fault() {
    let items = vec![whole_item(), raw(&[&["d"], &["c"]], &[&["t"]], &[]), raw(&[], &[], &[])];
    let err = posts_from_items(&items, SipPostType::New).unwrap_err();
    assert_eq!(err, SipError::PostParseError("Error parsing link".to_string()));
    let good = posts_from_items(&vec![whole_item(), whole_item()], SipPostType::New).unwrap();
    assert_eq!(good.len(), 2);
    assert!(posts_from_items(&vec![], SipPostType::New).unwrap().is_empty());
}

#[test]
fn history_from_page_takes_the_first_two_containers() {
    let mut third = whole_item();
    third.anchors = vec![];
    let page = RawPage {
        containers: vec![vec![whole_item()], vec![whole_item(), whole_item()], vec![third]],
    };
    let history = history_from_page(&page).unwrap();
    assert_eq!(history.general.len(), 1);
    assert_eq!(history.general[0].post_type, SipPostType::New);
    assert_eq!(history.important.len(), 2);
    assert_eq!(history.important[1].post_type, SipPostType::Important);
}

#[test]
fn history_from_page_needs_two_containers() {
    let err = history_from_page(&RawPage { containers: vec![vec![whole_item()]] }).unwrap_err();
    assert_eq!(err, SipError::PostError("Missing posts".to_string()));
    let err = history_from_page(&RawPage { containers: vec![] }).unwrap_err();
    assert_eq!(err, SipError::PostError("Missing posts".to_string()));
}

#[test]
fn category_fault_is_wrapped_with_its_text() {
    let inner = SipError::PostParseError("Error parsing date".to_string());
    assert_eq!(
        wrap_category_fault(&inner),
        SipError::PostParseError("Post parse error: Error parsing date".to_string())
    );
}

#[test]
fn the_five_queries_compile() {
    assert!(Selectors::compile().is_ok());
    assert!(compile_selector("div.news-box").is_ok());
    assert!(compile_selector("ul li").is_ok());
}

#[test]
fn a_malformed_query_is_a_selector_error() {
    let err = compile_selector("div..").unwrap_err();
    assert!(matches!(err, SipError::SelectorError(_)));
    let err = compile_selector("").unwrap_err();
    assert!(matches!(err, SipError::SelectorError(_)));
}

#[test]
fn trim_removes_white_space_at_both_ends_only() {
    assert_eq!(trim_text("  a b  "), "a b");
    assert_eq!(trim_text("\t\n x \r\n"), "x");
    assert_eq!(trim_text("\u{a0}\u{3000}x\u{2003}"), "x");
    assert_eq!(trim_text("   "), "");
    assert_eq!(trim_text(""), "");
    assert_eq!(trim_text("x"), "x");
    assert_eq!(trim_text("\u{200b}x"), "\u{200b}x");
}

#[test]
fn join_trims_each_piece() {
    assert_eq!(join_trimmed(&texts(&[" a ", "", "  ", " b c ", "d"])), "ab cd");
    assert_eq!(join_trimmed(&vec![]), "");
}

#[test]
fn white_space_is_what_std_calls_white_space() {
    let mut count = 0;
    for code in 0..=0x10FFFFu32 {
        if let Some(c) = char::from_u32(code) {
            assert_eq!(is_white_space(c), c.is_whitespace(), "U+{:04X}", code);
            if is_white_space(c) {
                count += 1;
            }
        }
    }
    assert_eq!(count, 25);
    assert!(is_white_space(' '));
    assert!(is_white_space('\n'));
    assert!(is_white_space('\u{3000}'));
    assert!(!is_white_space('a'));
    assert!(!is_white_space('\u{200B}'));
    assert!(!is_white_space('\u{180E}'));
}

#[test]
fn element_with_padded_date_gives_the_bare_fields() {
    let html = "<div><ul><li><p> 01.01.2024 </p><h4>Title</h4><p>Body</p>\
                <a href='/x'>more</a></li></ul></div>";
    let document = Html::parse_document(html);
    let div = document.select(&Selector::parse("div").unwrap()).next().unwrap();
    let posts = parse_element_to_posts(div, SipPostType::New).unwrap();
    assert_eq!(posts.len(), 1);
    assert_eq!(posts[0].post_type, SipPostType::New);
    assert_eq!(posts[0].date, "01.01.2024");
    assert_eq!(posts[0].title, "Title");
    assert_eq!(posts[0].content, "Body");
    assert_eq!(posts[0].link, "/x");
}

#[test]
fn with_three_paragraphs_content_is_the_second() {
    let html = "<div><ul><li><p>D</p><h4>T</h4><p>C1</p><p>C2</p><a href='/x'></a></li></ul>\
                </div>";
    let document = Html::parse_document(html);
    let div = document.select(&Selector::parse("div").unwrap()).next().unwrap();
    let posts = parse_element_to_posts(div, SipPostType::New).unwrap();
    assert_eq!(posts.len(), 1);
    assert_eq!(posts[0].date, "D");
    assert_eq!(posts[0].content, "C1");
}

#[test]
fn link_is_the_first_anchor_trimmed() {
    let html = "<div><ul><li><p>d</p><h4>t</h4><p>c</p><a href=' /x '>1</a>\
                <a href='/y'>2</a></li></ul></div>";
    let document = Html::parse_document(html);
    let div = document.select(&Selector::parse("div").unwrap()).next().unwrap();
    let posts = parse_element_to_posts(div, SipPostType::New).unwrap();
    assert_eq!(posts.len(), 1);
    assert_eq!(posts[0].link, "/x");
}

#[test]
fn extraction_of_one_text_is_always_the_same() {
    let html = page(&item("d", "t", "c", "/g"), &item("d", "t", "c", "/i"));
    let one = extract_posts(&html).unwrap();
    let two = extract_posts(&html).unwrap();
    assert_eq!(one.general.len(), two.general.len());
    assert_eq!(one.general[0].link, two.general[0].link);
    assert_eq!(one.general[0].title, two.general[0].title);
    assert_eq!(one.important[0].link, two.important[0].link);
}

#[test]
fn selector_error_carries_the_text_of_the_reason() {
    let reason = Selector::parse("div..").unwrap_err().to_string();
    assert!(!reason.is_empty());
    assert_eq!(compile_selector("div..").unwrap_err(), SipError::SelectorError(reason));
    let empty = Selector::parse("").unwrap_err().to_string();
    assert_eq!(compile_selector("").unwrap_err(), SipError::SelectorError(empty));
}

#[test]
fn oversize_page_is_refused() {
    let html = "a".repeat(0x0800_0001);
    assert_eq!(
        extract_posts(&html).unwrap_err(),
        SipError::TextParseError("Page too large".to_string())
    );
}

#[test]
fn page_limit_counts_characters() {
    assert_eq!(sipbot::markup::PARSE_LIMIT, 134_217_728);
}
