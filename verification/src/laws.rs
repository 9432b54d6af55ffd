//! What holds of every scan and of every resolution.

use crate::absolute::{
    parsed_url, query_stripped, url_texts, ParseFailure, ResolvedUrl, UrlText,
};
use crate::event::{AttrText, EventText, TagSide};
use crate::finder::{
    captured, captured_upto, first_href, href_from, href_of, resolved, LinkFinder, ScanResult,
};
use crate::text::contains_text;
use vstd::prelude::*;

verus! {

proof fn lemma_href_from_is_earliest(attrs: Seq<AttrText>, from: int)
    requires
        0 <= from,
    ensures
        match href_from(attrs, from) {
            Some(value) => exists|i: int|
                from <= i < attrs.len() && (#[trigger] attrs[i]).name == "href"@ && attrs[i].value
                    == value && forall|j: int| from <= j < i ==> (#[trigger] attrs[j]).name != "href"@,
            None => forall|i: int| from <= i < attrs.len() ==> (#[trigger] attrs[i]).name != "href"@,
        },
    decreases attrs.len() - from,
{
    if from < attrs.len() && attrs[from].name != "href"@ {
        lemma_href_from_is_earliest(attrs, from + 1);
        match href_from(attrs, from + 1) {
            Some(value) => {
                let i = choose|i: int|
                    from + 1 <= i < attrs.len() && (#[trigger] attrs[i]).name == "href"@
                        && attrs[i].value == value && forall|j: int|
                        from + 1 <= j < i ==> (#[trigger] attrs[j]).name != "href"@;
                assert(from <= i < attrs.len() && attrs[i].name == "href"@ && attrs[i].value
                    == value && forall|j: int| from <= j < i ==> (#[trigger] attrs[j]).name != "href"@);
            },
            None => {},
        }
    } else if from < attrs.len() {
        assert(attrs[from].name == "href"@ && attrs[from].value == href_from(attrs, from).unwrap());
    }
}

/// Of the attributes of a tag, the one captured is the earliest that is named
/// `href`: attributes of that name after it count for nothing, and a tag
/// without one gives nothing.
pub proof fn lemma_first_href_is_earliest(attrs: Seq<AttrText>)
    ensures
        match first_href(attrs) {
            Some(value) => exists|i: int|
                0 <= i < attrs.len() && (#[trigger] attrs[i]).name == "href"@ && attrs[i].value
                    == value && forall|j: int| 0 <= j < i ==> (#[trigger] attrs[j]).name != "href"@,
            None => forall|i: int| 0 <= i < attrs.len() ==> (#[trigger] attrs[i]).name != "href"@,
        },
{
    lemma_href_from_is_earliest(attrs, 0);
}

/// The attribute named `href` before which none is named so is the one
/// captured.
pub proof fn lemma_earliest_href_is_captured(attrs: Seq<AttrText>, j: int)
    requires
        0 <= j < attrs.len(),
        attrs[j].name == "href"@,
        forall|i: int| 0 <= i < j ==> (#[trigger] attrs[i]).name != "href"@,
    ensures
        first_href(attrs) == Some(attrs[j].value),
{
    lemma_first_href_is_earliest(attrs);
    match first_href(attrs) {
        Some(value) => {
            let found = choose|k: int|
                0 <= k < attrs.len() && (#[trigger] attrs[k]).name == "href"@ && attrs[k].value
                    == value && forall|i: int| 0 <= i < k ==> (#[trigger] attrs[i]).name != "href"@;
            assert(found == j);
        },
        None => {
            assert(attrs[j].name != "href"@);
        },
    }
}

/// An anchor tag none of whose attributes is named `href` leaves a scan as it
/// was.
pub proof fn lemma_anchor_without_href_adds_nothing(scan: ScanResult, event: EventText)
    requires
        event matches EventText::Tag(tag) && forall|i: int|
            0 <= i < tag.attrs.len() ==> (#[trigger] tag.attrs[i]).name != "href"@,
    ensures
        scan.after(event) == scan,
{
    if let EventText::Tag(tag) = event {
        lemma_first_href_is_earliest(tag.attrs);
    }
}

/// Only a start tag named `a` adds to a scan.
pub proof fn lemma_other_events_add_nothing(scan: ScanResult, event: EventText)
    requires
        !(event matches EventText::Tag(tag) && tag.kind == TagSide::Start && tag.name == "a"@),
    ensures
        scan.after(event) == scan,
{
}

/// The links of a document are those of its events, one event after the other:
/// a further event adds its own link behind those captured before it.
pub proof fn lemma_captured_follows_document_order(events: Seq<EventText>, event: EventText)
    ensures
        captured(events.push(event)) == match href_of(event) {
            Some(link) => captured(events).push(link),
            None => captured(events),
        },
{
    lemma_captured_upto_prefix(events.push(event), events, events.len());
}

proof fn lemma_captured_upto_prefix(longer: Seq<EventText>, shorter: Seq<EventText>, n: nat)
    requires
        n <= shorter.len() <= longer.len(),
        forall|i: int| 0 <= i < n ==> longer[i] == shorter[i],
    ensures
        captured_upto(longer, n) == captured_upto(shorter, n),
    decreases n,
{
    if n > 0 {
        lemma_captured_upto_prefix(longer, shorter, (n - 1) as nat);
    }
}

proof fn lemma_anchors_captured_upto(
    events: Seq<EventText>,
    at: Seq<int>,
    hrefs: Seq<Seq<char>>,
    n: nat,
    m: nat,
)
    requires
        at.len() == hrefs.len(),
        forall|j: int, k: int| 0 <= j < k < at.len() ==> at[j] < at[k],
        forall|k: int| 0 <= k < at.len() ==> 0 <= #[trigger] at[k] < events.len(),
        forall|k: int| 0 <= k < at.len() ==> href_of(events[#[trigger] at[k]]) == Some(hrefs[k]),
        forall|i: int|
            0 <= i < events.len() && !at.contains(i) ==> href_of(#[trigger] events[i]).is_none(),
        n <= events.len(),
        m <= at.len(),
        forall|k: int| 0 <= k < m ==> #[trigger] at[k] < n,
        forall|k: int| m <= k < at.len() ==> #[trigger] at[k] >= n,
    ensures
        captured_upto(events, n) == hrefs.take(m as int),
    decreases n,
{
    if n == 0 {
        if m > 0 {
            assert(at[0] < 0);
        }
        assert(hrefs.take(0) =~= Seq::empty());
    } else if m > 0 && at[m - 1] == n - 1 {
        lemma_anchors_captured_upto(events, at, hrefs, (n - 1) as nat, (m - 1) as nat);
        assert(hrefs.take(m as int) =~= hrefs.take(m - 1).push(hrefs[m - 1]));
    } else {
        assert forall|k: int| 0 <= k < at.len() implies at[k] != n - 1 by {
            if k < m - 1 {
                assert(at[k] < at[m - 1]);
            }
        }
        assert(!at.contains(n - 1));
        lemma_anchors_captured_upto(events, at, hrefs, (n - 1) as nat, m);
    }
}

/// A document whose anchor tags with an `href` stand at the places `at`, in
/// rising order and with the values `hrefs`, and in which no other event
/// gives a link, has exactly those values captured, in document order.
pub proof fn lemma_anchors_all_captured(
    events: Seq<EventText>,
    at: Seq<int>,
    hrefs: Seq<Seq<char>>,
)
    requires
        at.len() == hrefs.len(),
        forall|j: int, k: int| 0 <= j < k < at.len() ==> at[j] < at[k],
        forall|k: int| 0 <= k < at.len() ==> 0 <= #[trigger] at[k] < events.len(),
        forall|k: int| 0 <= k < at.len() ==> href_of(events[#[trigger] at[k]]) == Some(hrefs[k]),
        forall|i: int|
            0 <= i < events.len() && !at.contains(i) ==> href_of(#[trigger] events[i]).is_none(),
    ensures
        captured(events) == hrefs,
{
    lemma_anchors_captured_upto(events, at, hrefs, events.len(), at.len());
    assert(hrefs.take(hrefs.len() as int) =~= hrefs);
}

/// A scan has one handle for each captured link, and the handles point to the
/// links in document order.
pub proof fn lemma_one_handle_for_each_link(base: Seq<char>, events: Seq<EventText>)
    ensures
        ScanResult::of(base, events).handles.len() == captured(events).len(),
        forall|i: int|
            0 <= i < captured(events).len() ==> #[trigger] ScanResult::of(base, events).handles[i]
                == i,
{
}

/// A relative link whose text lies in the path of the base stands for
/// nothing.
pub proof fn lemma_self_loop_gives_nothing(base: Seq<char>, link: Seq<char>)
    requires
        parsed_url(link) == Err::<UrlText, ParseFailure>(ParseFailure::RelativeWithoutBase),
        parsed_url(base) matches Ok(base_url) && contains_text(base_url.path, link),
    ensures
        resolved(base, link).is_none(),
{
}

/// An absolute link stands for its own URL, whatever the base.
pub proof fn lemma_absolute_link_ignores_base(base: Seq<char>, link: Seq<char>)
    requires
        parsed_url(link).is_ok(),
    ensures
        resolved(base, link) == Some(parsed_url(link).unwrap()),
{
}

/// Against a base that is no URL, a link stands for something only where it
/// is an absolute URL itself.
pub proof fn lemma_unparseable_base_drops_relative_links(base: Seq<char>, link: Seq<char>)
    requires
        parsed_url(base).is_err(),
    ensures
        resolved(base, link) == match parsed_url(link) {
            Ok(url) => Some(url),
            Err(_) => None,
        },
{
}

proof fn lemma_absolute_collected_upto(scan: ScanResult, n: nat)
    requires
        scan.handles == Seq::new(scan.links.len(), |i: int| i as nat),
        n <= scan.links.len(),
        forall|i: int| 0 <= i < scan.links.len() ==> parsed_url(#[trigger] scan.links[i]).is_ok(),
    ensures
        scan.collected_upto(n).len() == n,
        forall|i: int|
            0 <= i < n ==> #[trigger] scan.collected_upto(n)[i] == query_stripped(
                parsed_url(scan.links[i]).unwrap().text,
            ),
    decreases n,
{
    if n > 0 {
        lemma_absolute_collected_upto(scan, (n - 1) as nat);
        assert(scan.handles[n - 1] == (n - 1) as nat);
        assert(parsed_url(scan.links[n - 1]).is_ok());
    }
}

/// A scan whose links are all absolute URLs, with one handle for each link in
/// order, collects one URL for each link, in the links' order: each is the
/// link's URL with its query taken off.
pub proof fn lemma_absolute_links_all_collected(scan: ScanResult)
    requires
        scan.handles == Seq::new(scan.links.len(), |i: int| i as nat),
        forall|i: int| 0 <= i < scan.links.len() ==> parsed_url(#[trigger] scan.links[i]).is_ok(),
    ensures
        scan.collected().len() == scan.links.len(),
        forall|i: int|
            0 <= i < scan.links.len() ==> #[trigger] scan.collected()[i] == query_stripped(
                parsed_url(scan.links[i]).unwrap().text,
            ),
{
    lemma_absolute_collected_upto(scan, scan.links.len());
}

/// A document whose captured links are all absolute URLs gives one URL for
/// each of them, in document order and whatever the base: the link's URL with
/// its query taken off.
pub proof fn lemma_absolute_anchors_all_resolved(
    base: Seq<char>,
    events: Seq<EventText>,
    hrefs: Seq<Seq<char>>,
)
    requires
        captured(events) == hrefs,
        forall|i: int| 0 <= i < hrefs.len() ==> parsed_url(#[trigger] hrefs[i]).is_ok(),
    ensures
        ScanResult::of(base, events).collected().len() == hrefs.len(),
        forall|i: int|
            0 <= i < hrefs.len() ==> #[trigger] ScanResult::of(base, events).collected()[i]
                == query_stripped(parsed_url(hrefs[i]).unwrap().text),
{
    lemma_absolute_links_all_collected(ScanResult::of(base, events));
}

/// Collecting the links of one finder twice gives the same URLs both times.
pub proof fn lemma_collect_links_repeatable(
    finder: LinkFinder,
    first: Seq<ResolvedUrl>,
    second: Seq<ResolvedUrl>,
)
    requires
        url_texts(first) == finder@.collected(),
        url_texts(second) == finder@.collected(),
    ensures
        first.len() == second.len(),
        forall|i: int| 0 <= i < first.len() ==> (#[trigger] first[i])@ == second[i]@,
{
    assert(url_texts(first).len() == first.len());
    assert(url_texts(second).len() == second.len());
    assert forall|i: int| 0 <= i < first.len() implies (#[trigger] first[i])@ == second[i]@ by {
        assert(url_texts(first)[i] == first[i]@);
        assert(url_texts(second)[i] == second[i]@);
    }
}

} // verus!
