use linkfinder::{Attr, Event, LinkFinder, ResolvedUrl, TagEvent, TagSide};
use url::Url;

fn texts(urls: &[ResolvedUrl]) -> Vec<String> {
    urls.iter().map(|u| u.as_str().to_owned()).collect()
}

fn resolve(base: &str, html: &str) -> Vec<String> {
    texts(&LinkFinder::get_links(base.to_owned(), html).collect_links())
}

fn tag(kind: TagSide, name: &str, attrs: &[(&str, &str)]) -> Event {
    Event::Tag(TagEvent {
        kind,
        name: name.to_owned(),
        attrs: attrs
            .iter()
            .map(|(n, v)| Attr { name: (*n).to_owned(), value: (*v).to_owned() })
            .collect(),
    })
}

fn anchor(attrs: &[(&str, &str)]) -> Event {
    tag(TagSide::Start, "a", attrs)
}

fn resolve_events(base: &str, events: Vec<Event>) -> Vec<String> {
    texts(&LinkFinder::from_events(base.to_owned(), &events).collect_links())
}

#[test]
fn test_fetch_links() {
    let html = r#"
            <html>
            <body>
                <a href="http://test.com"/>
                <a href="http://provinzial.com"/>
            </body>
            </html>"#;

    let links = LinkFinder::get_links("".to_owned(), html).collect_links();
    let links: Vec<Url> = links.iter().map(|u| Url::parse(u.as_str()).unwrap()).collect();
    assert_eq!(
        vec![
            Url::parse("http://test.com").unwrap(),
            Url::parse("http://provinzial.com").unwrap()
        ],
        links
    );
}

#[test]
fn two_absolute_links_in_document_order() {
    let html = r#"<a href="http://test.com"/><a href="http://provinzial.com"/>"#;
    assert_eq!(resolve("", html), vec!["http://test.com/", "http://provinzial.com/"]);
}

#[test]
fn n_absolute_anchors_give_n_urls_without_query() {
    let html = r#"<p><a href="http://a.com/1?q=1">a</a> text <a href="https://b.org/x/y?z">b</a>
        <span><a href="http://c.net/?k=v#top">c</a></span></p>"#;
    let finder = LinkFinder::get_links("http://base.com/dir/".to_owned(), html);
    assert_eq!(finder.link_strings.len(), 3);
    let urls = finder.collect_links();
    assert_eq!(texts(&urls), vec!["http://a.com/1", "https://b.org/x/y", "http://c.net/#top"]);
    for url in &urls {
        assert_eq!(url.query(), None);
    }
}

#[test]
fn anchor_without_href_gives_nothing() {
    let finder = LinkFinder::get_links("http://site.com/".to_owned(), r#"<a class="x"></a>"#);
    assert_eq!(finder.link_strings.len(), 0);
    assert!(finder.collect_links().is_empty());
}

#[test]
fn anchor_event_without_href_gives_nothing() {
    let events = vec![anchor(&[("class", "x")]), anchor(&[])];
    let finder = LinkFinder::from_events("http://site.com/".to_owned(), &events);
    assert_eq!(finder.link_strings.len(), 0);
    assert!(finder.collect_links().is_empty());
}

#[test]
fn first_of_two_hrefs_is_used() {
    let html = r#"<a href="http://a.com" href="http://b.com">"#;
    assert_eq!(resolve("", html), vec!["http://a.com/"]);
}

#[test]
fn first_of_two_href_attributes_of_an_event_is_used() {
    let events = vec![anchor(&[
        ("class", "x"),
        ("href", "http://a.com"),
        ("href", "http://b.com"),
    ])];
    assert_eq!(resolve_events("", events), vec!["http://a.com/"]);
}

#[test]
fn attribute_name_is_matched_exactly() {
    let events = vec![
        anchor(&[("HREF", "http://upper.com")]),
        anchor(&[("hre", "http://short.com")]),
        anchor(&[("hrefs", "http://long.com")]),
        anchor(&[("Href", "http://mixed.com"), ("href", "http://exact.com")]),
    ];
    assert_eq!(resolve_events("", events), vec!["http://exact.com/"]);
}

#[test]
fn only_start_tags_named_a_are_read() {
    let events = vec![
        Event::Doctype,
        tag(TagSide::Start, "b", &[("href", "http://b.com")]),
        tag(TagSide::Start, "A", &[("href", "http://upper.com")]),
        tag(TagSide::Start, "ab", &[("href", "http://ab.com")]),
        tag(TagSide::Start, "", &[("href", "http://empty.com")]),
        tag(TagSide::End, "a", &[("href", "http://end.com")]),
        Event::Comment,
        Event::Characters,
        Event::NullCharacter,
        Event::ParseError,
        anchor(&[("href", "http://a.com")]),
        Event::EndOfFile,
    ];
    let finder = LinkFinder::from_events("".to_owned(), &events);
    assert_eq!(finder.link_strings.len(), 1);
    assert_eq!(texts(&finder.collect_links()), vec!["http://a.com/"]);
}

#[test]
fn tokenizer_lowers_the_case_of_names() {
    assert_eq!(resolve("", r#"<A HREF="http://a.com/Path">x</A>"#), vec!["http://a.com/Path"]);
}

#[test]
fn link_elements_and_images_are_passed_over() {
    let html = r#"<link href="http://l.com"><img src="http://i.com"><a href="http://a.com">"#;
    assert_eq!(resolve("", html), vec!["http://a.com/"]);
}

#[test]
fn self_loop_guard_drops_the_link() {
    let finder = LinkFinder::get_links("http://site.com/page".to_owned(), r#"<a href="/page">"#);
    assert_eq!(finder.link_strings.len(), 1);
    assert!(finder.get_url(finder.link_strings[0]).is_none());
    assert!(finder.collect_links().is_empty());
}

#[test]
fn self_loop_guard_is_a_substring_test() {
    let base = "http://site.com/dir/page.html";
    assert_eq!(resolve(base, r#"<a href="page">"#), Vec::<String>::new());
    assert_eq!(resolve(base, r#"<a href="ir/pa">"#), Vec::<String>::new());
    assert_eq!(resolve(base, r#"<a href="pages">"#), vec!["http://site.com/dir/pages"]);
    assert_eq!(resolve(base, r#"<a href="site.com">"#), vec!["http://site.com/dir/site.com"]);
}

#[test]
fn relative_link_is_joined_onto_the_base() {
    let finder = LinkFinder::get_links("http://site.com/page".to_owned(), r#"<a href="/other">"#);
    let url = finder.get_url(finder.link_strings[0]).unwrap();
    assert_eq!(url.as_str(), "http://site.com/other");
    assert_eq!(url.path(), "/other");
    assert_eq!(url.query(), None);
    assert_eq!(texts(&finder.collect_links()), vec!["http://site.com/other"]);
}

#[test]
fn relative_link_loses_its_query() {
    let finder =
        LinkFinder::get_links("http://site.com/page?p=1".to_owned(), r#"<a href="/other?x=1">"#);
    let url = finder.get_url(finder.link_strings[0]).unwrap();
    assert_eq!(url.as_str(), "http://site.com/other?x=1");
    assert_eq!(url.query(), Some("x=1"));
    assert_eq!(texts(&finder.collect_links()), vec!["http://site.com/other"]);
}

#[test]
fn relative_link_against_a_directory() {
    let base = "http://site.com/a/b/index.html";
    assert_eq!(resolve(base, r#"<a href="c.png">"#), vec!["http://site.com/a/b/c.png"]);
    assert_eq!(resolve(base, r#"<a href="../up">"#), vec!["http://site.com/a/up"]);
    assert_eq!(resolve(base, r#"<a href="//eve.com/x">"#), vec!["http://eve.com/x"]);
}

#[test]
fn absolute_link_keeps_its_query_until_collected() {
    let finder = LinkFinder::get_links("".to_owned(), r#"<a href="http://x.com/a?x=1">"#);
    let url = finder.get_url(finder.link_strings[0]).unwrap();
    assert_eq!(url.as_str(), "http://x.com/a?x=1");
    assert_eq!(url.path(), "/a");
    assert_eq!(url.query(), Some("x=1"));
    let urls = finder.collect_links();
    assert_eq!(texts(&urls), vec!["http://x.com/a"]);
    assert_eq!(urls[0].path(), "/a");
    assert_eq!(urls[0].query(), None);
}

#[test]
fn fragment_passes_through() {
    assert_eq!(resolve("", r#"<a href="http://x.com/a?x=1#frag">"#), vec!["http://x.com/a#frag"]);
}

#[test]
fn absolute_link_is_not_held_against_the_base_path() {
    let base = "http://site.com/http://x.com/a";
    assert_eq!(resolve(base, r#"<a href="http://x.com/a">"#), vec!["http://x.com/a"]);
}

#[test]
fn collecting_twice_gives_the_same() {
    let html = r#"<a href="http://x.com/a?x=1"><a href="/rel?y"><a href="http://[bad"><a href="b">"#;
    let finder = LinkFinder::get_links("http://site.com/dir/page".to_owned(), html);
    let first = finder.collect_links();
    let second = finder.collect_links();
    assert_eq!(first, second);
    assert_eq!(
        texts(&first),
        vec!["http://x.com/a", "http://site.com/rel", "http://site.com/dir/b"]
    );
}

#[test]
fn tag_soup_is_scanned_as_far_as_it_goes() {
    let html = r#"<div><<a href="http://a.com">one< <p><a href="http://b.com"<b>two</a"#;
    assert_eq!(resolve("", html), vec!["http://a.com/", "http://b.com/"]);
    assert_eq!(resolve("", "<"), Vec::<String>::new());
    assert_eq!(resolve("", "<a href="), Vec::<String>::new());
    assert_eq!(resolve("", ""), Vec::<String>::new());
}

#[test]
fn unparseable_base_drops_only_relative_links() {
    let html = r#"<a href="/rel"><a href="http://abs.com/x"><a href="other">"#;
    let finder = LinkFinder::get_links("not a url".to_owned(), html);
    assert_eq!(finder.link_strings.len(), 3);
    assert!(finder.get_url(finder.link_strings[0]).is_none());
    assert!(finder.get_url(finder.link_strings[1]).is_some());
    assert!(finder.get_url(finder.link_strings[2]).is_none());
    assert_eq!(texts(&finder.collect_links()), vec!["http://abs.com/x"]);
}

#[test]
fn malformed_absolute_link_is_dropped() {
    let base = "http://site.com/";
    assert_eq!(resolve(base, r#"<a href="http://[::1">"#), Vec::<String>::new());
    assert_eq!(resolve(base, r#"<a href="http://">"#), Vec::<String>::new());
    assert_eq!(resolve(base, r#"<a href="http://a.com:99999/">"#), Vec::<String>::new());
}

#[test]
fn empty_link_is_dropped() {
    assert_eq!(resolve("http://site.com/page", r#"<a href="">"#), Vec::<String>::new());
    assert_eq!(resolve("", r#"<a href="">"#), Vec::<String>::new());
}

#[test]
fn base_that_cannot_be_a_base_fails_the_join() {
    assert_eq!(resolve("mailto:someone@site.com", r#"<a href="rel">"#), Vec::<String>::new());
}

#[test]
fn equal_links_are_both_kept() {
    let html = r#"<a href="http://a.com/x?1"><a href="http://a.com/x?2">"#;
    assert_eq!(resolve("", html), vec!["http://a.com/x", "http://a.com/x"]);
}

#[test]
fn handles_count_the_links_in_order() {
    let html = r#"<a href="http://a.com"><a><a href="http://b.com"><a href="http://c.com">"#;
    let finder = LinkFinder::get_links("".to_owned(), html);
    let positions: Vec<usize> = finder.link_strings.iter().map(|h| h.position()).collect();
    assert_eq!(positions, vec![0, 1, 2]);
    assert_eq!(finder.get_url(finder.link_strings[1]).unwrap().as_str(), "http://b.com/");
}

#[test]
fn handle_of_another_scan_finds_nothing() {
    let long = LinkFinder::get_links(
        "".to_owned(),
        r#"<a href="http://a.com"><a href="http://b.com">"#,
    );
    let short = LinkFinder::get_links("".to_owned(), r#"<a href="http://c.com">"#);
    assert_eq!(short.get_url(long.link_strings[0]).unwrap().as_str(), "http://c.com/");
    assert!(short.get_url(long.link_strings[1]).is_none());
    let empty = LinkFinder::default();
    assert!(empty.get_url(long.link_strings[0]).is_none());
}

#[test]
fn collect_follows_the_handles() {
    let html = r#"<a href="http://a.com"><a href="http://b.com">"#;
    let mut finder = LinkFinder::get_links("".to_owned(), html);
    finder.link_strings.reverse();
    assert_eq!(texts(&finder.collect_links()), vec!["http://b.com/", "http://a.com/"]);
    finder.link_strings.clear();
    assert!(finder.collect_links().is_empty());
}

#[test]
fn default_finder_is_empty() {
    let finder = LinkFinder::default();
    assert_eq!(finder.link_strings.len(), 0);
    assert!(finder.collect_links().is_empty());
}

#[test]
fn process_token_captures_one_link_at_a_time() {
    let mut finder = LinkFinder::default();
    finder.process_token(&anchor(&[("href", "http://a.com")]));
    finder.process_token(&Event::Characters);
    finder.process_token(&anchor(&[("id", "x")]));
    finder.process_token(&anchor(&[("href", "http://b.com")]));
    assert_eq!(finder.link_strings.len(), 0);
    assert!(finder.collect_links().is_empty());
    let again = LinkFinder::from_events(
        "".to_owned(),
        &vec![anchor(&[("href", "http://a.com")]), anchor(&[("href", "http://b.com")])],
    );
    assert_eq!(texts(&again.collect_links()), vec!["http://a.com/", "http://b.com/"]);
}

#[test]
fn character_references_in_a_link_are_decoded() {
    assert_eq!(
        resolve("", r#"<a href="http://a.com/x&amp;y">"#),
        vec!["http://a.com/x&y"]
    );
}

#[test]
fn handles_getter_gives_the_link_strings() {
    let html = r#"<a href="http://a.com"><a href="http://b.com">"#;
    let finder = LinkFinder::get_links("".to_owned(), html);
    let positions: Vec<usize> = finder.handles().iter().map(|h| h.position()).collect();
    assert_eq!(positions, vec![0, 1]);
}

fn attrs(pairs: &[(&str, &str)]) -> Vec<Attr> {
    pairs.iter().map(|(n, v)| Attr { name: (*n).to_owned(), value: (*v).to_owned() }).collect()
}

#[test]
fn push_href_without_href_changes_nothing() {
    let mut finder = LinkFinder::default();
    finder.push_href(&attrs(&[]));
    finder.push_href(&attrs(&[("class", "x"), ("HREF", "http://upper.com"), ("id", "href")]));
    assert!(finder.links().is_empty());
    assert!(finder.link_strings.is_empty());
}

#[test]
fn push_href_appends_the_first_href_only() {
    let mut finder = LinkFinder::default();
    finder.push_href(&attrs(&[("href", "first")]));
    finder.push_href(&attrs(&[("id", "x"), ("href", "second"), ("href", "third")]));
    finder.push_href(&attrs(&[("title", "t")]));
    assert_eq!(finder.links(), &vec!["first".to_owned(), "second".to_owned()]);
    assert!(finder.link_strings.is_empty());
}

#[test]
fn process_token_appends_to_the_links() {
    let mut finder = LinkFinder::default();
    finder.process_token(&anchor(&[("href", "/one")]));
    finder.process_token(&tag(TagSide::End, "a", &[("href", "/end")]));
    finder.process_token(&tag(TagSide::Start, "area", &[("href", "/area")]));
    finder.process_token(&anchor(&[("name", "n")]));
    finder.process_token(&anchor(&[("rel", "x"), ("href", "/two")]));
    assert_eq!(finder.links(), &vec!["/one".to_owned(), "/two".to_owned()]);
}

#[test]
fn scan_has_one_handle_for_each_captured_link() {
    let html = r#"<a name="top"></a><a href="x">x</a><p><a>bare</a><a href="">empty</a><a HREF=y>"#;
    let finder = LinkFinder::get_links("http://site.com/".to_owned(), html);
    assert_eq!(finder.links(), &vec!["x".to_owned(), "".to_owned(), "y".to_owned()]);
    assert_eq!(finder.link_strings.len(), 3);
    assert_eq!(finder.handles().len(), finder.links().len());
}

#[test]
fn raw_link_text_is_kept_as_written() {
    let finder = LinkFinder::get_links("".to_owned(), r#"<a href=" /A b?c=d#e ">"#);
    assert_eq!(finder.links(), &vec![" /A b?c=d#e ".to_owned()]);
}
