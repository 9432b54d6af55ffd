//! The events of an HTML document, as plain values.

use vstd::prelude::*;

verus! {

/// Whether a tag opens or closes an element.
#[derive(Debug, Clone, Copy, PartialEq, Eq, Structural)]
pub enum TagSide {
    Start,
    End,
}

/// One attribute of a tag: its local name and its value.
#[derive(Debug, Clone)]
pub struct Attr {
    pub name: String,
    pub value: String,
}

/// What an [`Attr`] holds.
pub struct AttrText {
    pub name: Seq<char>,
    pub value: Seq<char>,
}

impl View for Attr {
    type V = AttrText;

    open spec fn view(&self) -> AttrText {
        AttrText { name: self.name@, value: self.value@ }
    }
}

/// What a sequence of attributes holds, attribute by attribute.
pub open spec fn attr_texts(attrs: Seq<Attr>) -> Seq<AttrText> {
    attrs.map_values(|a: Attr| a@)
}

/// A tag with its attributes in the order in which the document gives them.
#[derive(Debug, Clone)]
pub struct TagEvent {
    pub kind: TagSide,
    pub name: String,
    pub attrs: Vec<Attr>,
}

/// What a [`TagEvent`] holds.
pub struct TagText {
    pub kind: TagSide,
    pub name: Seq<char>,
    pub attrs: Seq<AttrText>,
}

impl View for TagEvent {
    type V = TagText;

    open spec fn view(&self) -> TagText {
        TagText {
            kind: self.kind,
            name: self.name@,
            attrs: attr_texts(self.attrs@),
        }
    }
}

/// One event of a document, as its tokenizer reports it. Only a tag keeps its contents: nothing here reads
/// those of the other kinds.
#[derive(Debug, Clone)]
pub enum Event {
    Tag(TagEvent),
    Doctype,
    Comment,
    Characters,
    NullCharacter,
    EndOfFile,
    ParseError,
}

/// What a [`Event`] holds.
pub enum EventText {
    Tag(TagText),
    Doctype,
    Comment,
    Characters,
    NullCharacter,
    EndOfFile,
    ParseError,
}

impl View for Event {
    type V = EventText;

    open spec fn view(&self) -> EventText {
        match *self {
            Event::Tag(tag) => EventText::Tag(tag@),
            Event::Doctype => EventText::Doctype,
            Event::Comment => EventText::Comment,
            Event::Characters => EventText::Characters,
            Event::NullCharacter => EventText::NullCharacter,
            Event::EndOfFile => EventText::EndOfFile,
            Event::ParseError => EventText::ParseError,
        }
    }
}

/// What a sequence of events holds, event by event.
pub open spec fn event_texts(events: Seq<Event>) -> Seq<EventText> {
    events.map_values(|e: Event|  e@)
}

} // verus!
