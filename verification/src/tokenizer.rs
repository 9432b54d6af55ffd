//! Tokenization of HTML text by the `html5ever` tokenizer.

use crate::event::{event_texts, Attr, Event, EventText, TagEvent, TagSide};
use html5ever::tendril::StrTendril;
use html5ever::tokenizer::{
    BufferQueue, TagKind, Token, TokenSink, TokenSinkResult, Tokenizer, TokenizerOpts,
};
use vstd::prelude::*;

verus! {

#[verifier::external_type_specification]
#[verifier::external_body]
pub struct ExToken(html5ever::tokenizer::Token);

#[verifier::external_type_specification]
#[verifier::external_body]
#[verifier::reject_recursive_types(Handle)]
pub struct ExTokenSinkResult<Handle>(html5ever::tokenizer::TokenSinkResult<Handle>);

/// The tokens that the `html5ever` tokenizer, in its default configuration and
/// told by its sink to continue after each token, emits for a document.
pub uninterp spec fn html_events(html: Seq<char>) -> Seq<EventText>;

/// A sink that keeps every token it is given, as an event.
struct EventLog {
    events: Vec<Event>,
}

impl TokenSink for EventLog {
    type Handle = ();

    /// `TokenSink::process_token`, as the tokenizer calls it: the token is
    /// kept, variant for variant, and the tokenizer is told to continue.
    #[verifier::external_body]
    fn process_token(&mut self, token: html5ever::tokenizer::Token, _line_number: u64) -> (r: TokenSinkResult<()>) {
        self.events.push(match token {
            Token::TagToken(tag) => Event::Tag(TagEvent {
                kind: match tag.kind { TagKind::StartTag => TagSide::Start, TagKind::EndTag => TagSide::End },
                name: tag.name.to_string(),
                attrs: tag.attrs.into_iter().map(|a| Attr { name: a.name.local.to_string(), value: a.value.to_string() }).collect(),
            }),
            Token::DoctypeToken(_) => Event::Doctype,
            Token::CommentToken(_) => Event::Comment,
            Token::CharacterTokens(_) => Event::Characters,
            Token::NullCharacterToken => Event::NullCharacter,
            Token::EOFToken => Event::EndOfFile,
            Token::ParseError(_) => Event::ParseError,
        });
        TokenSinkResult::Continue
    }
}

/// `Tokenizer::feed` and `Tokenizer::end` of `html5ever`, on the whole of
/// `html` as one buffer and with a sink that keeps every token. The events are
/// those of [`html_events`].
///
/// The tokenizer gathers text in buffers that grow to the next power of two
/// and cannot pass `2^31` bytes. It writes at most three bytes for one byte of
/// the document (a NUL becomes U+FFFD), so three times the document's length
/// has to stay within that.
#[verifier::external_body]
pub(crate) fn tokenize(html: &str) -> (events: Vec<Event>)
    requires
        3 * html.len() <= 0x8000_0000,
    ensures
        event_texts(events@) == html_events(html@),
{
    let mut queue = BufferQueue::new();
    queue.push_back(StrTendril::from(html));
    let mut tokenizer = Tokenizer::new(EventLog { events: Vec::new() }, TokenizerOpts::default());
    let _ = tokenizer.feed(&mut queue);
    tokenizer.end();
    tokenizer.sink.events
}

} // verus!
