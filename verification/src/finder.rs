//! The link finder: it captures the `href` of each anchor tag of a document and
//! resolves what it captured against the document's address.

use crate::absolute::{
    join_url, joined_url, parse_url, parsed_url, query_stripped, strip_query, url_texts,
    ParseFailure, ResolvedUrl, UrlText,
};
use crate::event::{attr_texts, event_texts, Attr, AttrText, Event, EventText, TagSide};
use crate::laws::{lemma_earliest_href_is_captured, lemma_first_href_is_earliest};
use crate::text::{contains_text, text_contains};
use crate::tokenizer::{html_events, tokenize};
use vstd::prelude::*;

verus! {

/// The value of the first attribute named `href`, exactly so, among
/// `attrs[i..]`.
pub open spec fn href_from(attrs: Seq<AttrText>, i: int) -> Option<Seq<char>>
    decreases attrs.len() - i,
{
    if i < 0 || i >= attrs.len() {
        None
    } else if attrs[i].name == "href"@ {
        Some(attrs[i].value)
    } else {
        href_from(attrs, i + 1)
    }
}

/// The value of the first attribute named `href`.
pub open spec fn first_href(attrs: Seq<AttrText>) -> Option<Seq<char>> {
    href_from(attrs, 0)
}

/// The link that an event contributes: the first `href` of a start tag named
/// `a`, and nothing for anything else.
pub open spec fn href_of(event: EventText) -> Option<Seq<char>> {
    match event {
        EventText::Tag(tag) => if tag.kind == TagSide::Start && tag.name == "a"@ {
            first_href(tag.attrs)
        } else {
            None
        },
        _ => None,
    }
}

/// The links that the first `n` events contribute, in the events' order.
pub open spec fn captured_upto(events: Seq<EventText>, n: nat) -> Seq<Seq<char>>
    decreases n,
{
    if n == 0 {
        Seq::empty()
    } else {
        let before = captured_upto(events, (n - 1) as nat);
        match href_of(events[n - 1]) {
            Some(link) => before.push(link),
            None => before,
        }
    }
}

/// The links that a document's events contribute, in document order.
pub open spec fn captured(events: Seq<EventText>) -> Seq<Seq<char>> {
    captured_upto(events, events.len())
}

/// The URL that a captured link stands for on a page at `base`. A link that
/// parses as an absolute URL is that URL. A relative reference is joined onto
/// the base, unless the base is no URL or its path contains the link's text.
/// Anything else stands for nothing.
pub open spec fn resolved(base: Seq<char>, link: Seq<char>) -> Option<UrlText> {
    match parsed_url(link) {
        Ok(url) => Some(url),
        Err(ParseFailure::RelativeWithoutBase) => match parsed_url(base) {
            Ok(base_url) => if contains_text(base_url.path, link) {
                None
            } else {
                joined_url(base_url.text, link)
            },
            Err(_) => None,
        },
        Err(ParseFailure::Invalid) => None,
    }
}

/// What a scan holds: the page's address, the captured links in document
/// order, and the positions that its handles point to.
pub struct ScanResult {
    pub base: Seq<char>,
    pub links: Seq<Seq<char>>,
    pub handles: Seq<nat>,
}

impl ScanResult {
    /// The scan of a page at `base` whose tokenizer reported `events`: one
    /// handle for each captured link, in order.
    pub open spec fn of(base: Seq<char>, events: Seq<EventText>) -> ScanResult {
        ScanResult {
            base,
            links: captured(events),
            handles: Seq::new(captured(events).len(), |i: int| i as nat),
        }
    }

    /// The scan after one more event.
    pub open spec fn after(self, event: EventText) -> ScanResult {
        match href_of(event) {
            Some(link) => ScanResult { links: self.links.push(link), ..self },
            None => self,
        }
    }

    /// The URL of the link at `position`; nothing where no link is there.
    pub open spec fn resolved_at(self, position: nat) -> Option<UrlText> {
        if position < self.links.len() {
            resolved(self.base, self.links[position as int])
        } else {
            None
        }
    }

    /// The URLs of the first `n` handles, each without its query; a handle
    /// whose link resolves to nothing leaves no entry.
    pub open spec fn collected_upto(self, n: nat) -> Seq<UrlText>
        decreases n,
    {
        if n == 0 {
            Seq::empty()
        } else {
            let before = self.collected_upto((n - 1) as nat);
            match self.resolved_at(self.handles[n - 1]) {
                Some(url) => before.push(query_stripped(url.text)),
                None => before,
            }
        }
    }

    /// The URLs of all handles, in the handles' order.
    pub open spec fn collected(self) -> Seq<UrlText> {
        self.collected_upto(self.handles.len())
    }
}

/// A handle on one captured link: its position among them.
#[derive(Copy, Clone, Debug)]
pub struct LinkStr(usize);

impl View for LinkStr {
    type V = nat;

    closed spec fn view(&self) -> nat {
        self.0 as nat
    }
}

impl LinkStr {
    /// The position that the handle points to.
    pub fn position(&self) -> (position: usize)
        ensures
            position == self@,
    {
        self.0
    }
}

/// The positions that a sequence of handles points to.
pub open spec fn positions(handles: Seq<LinkStr>) -> Seq<nat> {
    handles.map_values(|h: LinkStr| h@)
}

/// What a sequence of strings holds, string by string.
pub open spec fn texts_of(strings: Seq<String>) -> Seq<Seq<char>> {
    strings.map_values(|s: String| s@)
}

/// The links of one document, and the address they are resolved against.
pub struct LinkFinder {
    base: String,
    links: Vec<String>,
    pub link_strings: Vec<LinkStr>,
}

impl View for LinkFinder {
    type V = ScanResult;

    closed spec fn view(&self) -> ScanResult {
        ScanResult {
            base: self.base@,
            links: self.link_texts(),
            handles: positions(self.link_strings@),
        }
    }
}

impl Default for LinkFinder {
    fn default() -> (finder: LinkFinder)
        ensures
            finder@ == (ScanResult {
                base: Seq::empty(),
                links: Seq::empty(),
                handles: Seq::empty(),
            }),
    {
        let finder =
            LinkFinder { base: String::new(), links: Vec::new(), link_strings: Vec::new() };
        proof {
            assert(finder.link_texts() =~= Seq::empty());
            assert(positions(finder.link_strings@) =~= Seq::empty());
            assert(finder.base@ =~= Seq::empty());
        }
        finder
    }
}

impl LinkFinder {
    /// The captured links, in document order.
    closed spec fn link_texts(&self) -> Seq<Seq<char>> {
        texts_of(self.links@)
    }

    /// The captured links, in document order, as the scan holds them.
    pub fn links(&self) -> (links: &Vec<String>)
        ensures
            texts_of(links@) == self@.links,
    {
        &self.links
    }

    /// The handles of the scan, as `link_strings` holds them.
    pub fn handles(&self) -> (handles: &Vec<LinkStr>)
        ensures
            positions(handles@) == self@.handles,
    {
        &self.link_strings
    }

    /// The URL that the link behind a handle stands for, still with its query;
    /// `None` where the handle points to no link of this scan, or the link
    /// stands for nothing.
    pub fn get_url(&self, link_str: LinkStr) -> (url: Option<ResolvedUrl>)
        ensures
            match url {
                Some(u) => self@.resolved_at(link_str@) == Some(u@) && u.wf(),
                None => self@.resolved_at(link_str@).is_none(),
            },
    {
        let position = link_str.0;
        if position >= self.links.len() {
            return None;
        }
        let link = self.links[position].as_str();
        match parse_url(link) {
            Ok(url) => Some(url),
            Err(ParseFailure::RelativeWithoutBase) => match parse_url(self.base.as_str()) {
                Ok(base) => if Self::is_loop(&base, link) {
                    None
                } else {
                    join_url(&base, link)
                },
                Err(_) => None,
            },
            Err(ParseFailure::Invalid) => None,
        }
    }

    /// The URLs of all handles in `link_strings`, in their order and each
    /// without its query. A handle that gives no URL is passed over.
    pub fn collect_links(&self) -> (urls: Vec<ResolvedUrl>)
        ensures
            url_texts(urls@) == self@.collected(),
            forall|i: int|
                0 <= i < urls.len() ==> urls[i].wf() && (#[trigger] urls[i]@).query.is_none(),
    {
        let mut urls: Vec<ResolvedUrl> = Vec::new();
        assert(url_texts(urls@) =~= self@.collected_upto(0));
        for i in 0..self.link_strings.len()
            invariant
                url_texts(urls@) == self@.collected_upto(i as nat),
                forall|k: int|
                    0 <= k < urls.len() ==> urls[k].wf() && (#[trigger] urls[k]@).query.is_none(),
        {
            let ghost before = urls@;
            if let Some(url) = self.get_url(self.link_strings[i]) {
                // The text of a well-formed URL parses, so there is always a
                // URL to take the query off.
                if let Some(stripped) = strip_query(&url) {
                    urls.push(stripped);
                    assert(url_texts(urls@) =~= url_texts(before).push(stripped@));
                }
            }
        }
        urls
    }

    /// The self-loop guard: whether the base's path contains the link's text.
    fn is_loop(base: &ResolvedUrl, link: &str) -> (looping: bool)
        ensures
            looping == contains_text(base@.path, link@),
    {
        text_contains(base.path(), link)
    }

    /// Captures the value of the first attribute named `href`, if there is
    /// one: attributes of that name after it are passed over, and without one
    /// nothing changes.
    pub fn push_href(&mut self, attrs: &Vec<Attr>)
        ensures
            final(self)@ == match first_href(attr_texts(attrs@)) {
                Some(link) => (ScanResult { links: old(self)@.links.push(link), ..old(self)@ }),
                None => old(self)@,
            },
            (forall|i: int| 0 <= i < attrs.len() ==> (#[trigger] attrs[i]).name@ != "href"@)
                ==> final(self)@ == old(self)@,
            forall|j: int|
                0 <= j < attrs.len() && (#[trigger] attrs[j]).name@ == "href"@ && (forall|i: int|
                    0 <= i < j ==> (#[trigger] attrs[i]).name@ != "href"@) ==> final(self)@ == (
                ScanResult { links: old(self)@.links.push(attrs[j].value@), ..old(self)@ }),
    {
        let ghost texts = attr_texts(attrs@);
        proof {
            lemma_first_href_is_earliest(texts);
            assert forall|j: int| 0 <= j < attrs.len() implies #[trigger] texts[j] == attrs[j]@ by {}
            assert forall|j: int|
                0 <= j < attrs.len() && (#[trigger] attrs[j]).name@ == "href"@ && (forall|i: int|
                    0 <= i < j ==> (#[trigger] attrs[i]).name@ != "href"@) implies first_href(texts)
                == Some(attrs[j].value@) by {
                assert forall|i: int| 0 <= i < j implies (#[trigger] texts[i]).name != "href"@ by {
                    assert(attrs[i].name@ != "href"@);
                }
                lemma_earliest_href_is_captured(texts, j);
            }
        }
        let href = "href".to_owned();
        for i in 0..attrs.len()
            invariant
                texts == attr_texts(attrs@),
                href@ == "href"@,
                forall|j: int| 0 <= j < attrs.len() ==> #[trigger] texts[j] == attrs[j]@,
                forall|j: int|
                    0 <= j < attrs.len() && (#[trigger] attrs[j]).name@ == "href"@ && (forall|
                        i: int,
                    |
                        0 <= i < j ==> (#[trigger] attrs[i]).name@ != "href"@) ==> first_href(texts)
                        == Some(attrs[j].value@),
                first_href(texts) == href_from(texts, i as int),
                *self == *old(self),
        {
            if attrs[i].name == href {
                self.links.push(attrs[i].value.clone());
                assert(self.link_texts() =~= old(self).link_texts().push(texts[i as int].value));
                return ;
            }
        }
    }

    /// Takes one event of the document: a start tag named `a` has its first
    /// `href` captured, and every other event changes nothing.
    pub fn process_token(&mut self, event: &Event)
        ensures
            final(self)@ == old(self)@.after(event@),
    {
        if let Event::Tag(tag) = event {
            let anchor = "a".to_owned();
            if tag.kind == TagSide::Start && tag.name == anchor {
                self.push_href(&tag.attrs);
            }
        }
    }

    /// The scan of a page at `base` whose tokenizer reported `events`.
    pub fn from_events(base: String, events: &Vec<Event>) -> (finder: LinkFinder)
        ensures
            finder@ == ScanResult::of(base@, event_texts(events@)),
            finder@.handles.len() == finder@.links.len(),
    {
        let mut finder = LinkFinder::default();
        let ghost texts = event_texts(events@);
        for i in 0..events.len()
            invariant
                texts == event_texts(events@),
                finder@ == (ScanResult {
                    base: Seq::empty(),
                    links: captured_upto(texts, i as nat),
                    handles: Seq::empty(),
                }),
        {
            finder.process_token(&events[i]);
        }
        let mut handles: Vec<LinkStr> = Vec::new();
        for i in 0..finder.links.len()
            invariant
                handles.len() == i,
                forall|k: int| 0 <= k < i ==> (#[trigger] handles[k])@ == k,
        {
            handles.push(LinkStr(i));
        }
        assert(positions(handles@) =~= Seq::new(finder.links.len() as nat, |k: int| k as nat));
        finder.link_strings = handles;
        finder.base = base;
        finder
    }

    /// Scans a document fetched from `base`: tokenizes the whole of `html` and
    /// captures the links of its anchor tags, with one handle for each link.
    /// Markup that is not well formed is read as the tokenizer recovers it.
    ///
    /// The tokenizer's buffers hold at most `2^31` bytes, and it may write
    /// three bytes for one of the document: hence the bound on the length.
    pub fn get_links(base: String, html: &str) -> (finder: LinkFinder)
        requires
            3 * html.len() <= 0x8000_0000,
        ensures
            finder@ == ScanResult::of(base@, html_events(html@)),
            finder@.handles.len() == finder@.links.len(),
    {
        let events = tokenize(html);
        Self::from_events(base, &events)
    }
}

} // verus!
