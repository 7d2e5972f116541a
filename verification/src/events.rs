//! The XML event stream that the parser reads.
//!
//! The document is turned into events by the `xml` crate's pull reader. The events are kept as
//! plain values, each with the place the reader had reached when it produced it, and the element
//! handlers read them through a [`Reader`].

use vstd::prelude::*;
use crate::attribs::AttribsView;
use crate::error::TextPosition;

verus! {

/// One event of the XML stream.
#[derive(Debug)]
pub enum Event {
    /// An opening tag: the element's local name and its attributes in document order.
    Start(String, Vec<(String, String)>),
    /// A closing tag: the element's local name.
    End(String),
    /// Character data.
    Text(String),
    /// White space, a comment, a processing instruction, a CDATA section or the document's start.
    Misc,
    /// The end of the document.
    EndDocument,
    /// The document is not well formed at this point.
    Failed(xml::reader::Error),
}

/// `Event` with its strings as character sequences.
pub ghost enum EventView {
    Start(Seq<char>, AttribsView),
    End(Seq<char>),
    Text(Seq<char>),
    Misc,
    EndDocument,
    Failed(xml::reader::Error),
}

impl DeepView for Event {
    type V = EventView;

    open spec fn deep_view(&self) -> EventView {
        match *self {
            Event::Start(name, attribs) => EventView::Start(name@, attribs.deep_view()),
            Event::End(name) => EventView::End(name@),
            Event::Text(text) => EventView::Text(text@),
            Event::Misc => EventView::Misc,
            Event::EndDocument => EventView::EndDocument,
            Event::Failed(e) => EventView::Failed(e),
        }
    }
}

impl EventView {
    /// Whether the stream ends with this event.
    pub open spec fn is_last(self) -> bool {
        self is EndDocument || self is Failed
    }
}

/// An event and the place that the reader had reached when it produced it.
#[derive(Debug)]
pub struct Token {
    pub event: Event,
    pub pos: TextPosition,
}

/// `Token` with its strings as character sequences.
pub ghost struct TokenView {
    pub event: EventView,
    pub pos: TextPosition,
}

impl DeepView for Token {
    type V = TokenView;

    open spec fn deep_view(&self) -> TokenView {
        TokenView { event: self.event.deep_view(), pos: self.pos }
    }
}

/// `xml::reader::EventReader` over a byte slice: the pull reader of the `xml` crate over a
/// document held in memory.
#[verifier::external_body]
pub struct Source<'a> {
    inner: xml::reader::EventReader<&'a [u8]>,
}

/// The tokens of a document: what a reader over these bytes produces, up to and including the
/// end of the document or the first failure.
pub uninterp spec fn document(bytes: Seq<u8>) -> Seq<TokenView>;

/// The tokens that a reader has yet to produce, up to and including the end of the document or
/// the first failure.
pub uninterp spec fn pending(reader: Source) -> Seq<TokenView>;

/// The place that a reader reports: that of the last event it produced.
pub uninterp spec fn last_position(reader: Source) -> TextPosition;

/// What `pull` hands back, as an event view.
pub open spec fn pulled(r: Result<Event, xml::reader::Error>) -> EventView {
    match r {
        Ok(event) => event.deep_view(),
        Err(e) => EventView::Failed(e),
    }
}

/// `xml::reader::EventReader::new` on a byte slice. The new reader has the whole document
/// before it.
#[verifier::external_body]
fn open_reader(bytes: &[u8]) -> (reader: Source<'_>)
    ensures
        pending(reader) == document(bytes@),
{
    Source { inner: xml::reader::EventReader::new(bytes) }
}

/// `xml::reader::EventReader::next`, with the event as a plain value: the local name of an
/// element, and the local name and value of each attribute. The reader produces the first of
/// its pending tokens. The end of the document and a failure are the last token of a stream,
/// and the reader stays there; after any other event it moves on.
#[verifier::external_body]
fn pull(reader: &mut Source) -> (r: Result<Event, xml::reader::Error>)
    ensures
        pending(*old(reader)).len() > 0,
        pulled(r) == pending(*old(reader))[0].event,
        pulled(r).is_last() <==> pending(*old(reader)).len() == 1,
        pulled(r).is_last() ==> pending(*final(reader)) == pending(*old(reader)),
        !pulled(r).is_last() ==> pending(*final(reader)) == pending(*old(reader)).drop_first(),
        last_position(*final(reader)) == pending(*old(reader))[0].pos,
{
    Ok(match reader.inner.next()? {
        xml::reader::XmlEvent::StartElement { name, attributes, .. } => Event::Start(
            name.local_name,
            attributes.into_iter().map(|a| (a.name.local_name, a.value)).collect(),
        ),
        xml::reader::XmlEvent::EndElement { name } => Event::End(name.local_name),
        xml::reader::XmlEvent::Characters(text) => Event::Text(text),
        xml::reader::XmlEvent::EndDocument => Event::EndDocument,
        _ => Event::Misc,
    })
}

/// `xml::common::Position::position` of the reader: the place of the last event it produced.
#[verifier::external_body]
fn position(reader: &Source) -> (pos: TextPosition)
    ensures
        pos == last_position(*reader),
{
    let pos = xml::common::Position::position(&reader.inner);
    TextPosition { row: pos.row, column: pos.column }
}

/// Reads a whole document into tokens. The last token is the end of the document or the
/// failure at which the reader stopped.
pub fn read_tokens(bytes: &[u8]) -> (tokens: Vec<Token>)
    ensures
        tokens.deep_view() == document(bytes@),
{
    let mut reader = open_reader(bytes);
    let mut tokens: Vec<Token> = Vec::new();
    let mut done = false;
    proof {
        assert(tokens.deep_view() + pending(reader) =~= document(bytes@));
    }
    while !done
        invariant
            !done ==> tokens.deep_view() + pending(reader) == document(bytes@),
            done ==> tokens.deep_view() == document(bytes@),
        decreases pending(reader).len() + if done { 0int } else { 1int },
    {
        let ghost before = pending(reader);
        let ghost collected = tokens.deep_view();
        let r = pull(&mut reader);
        let pos = position(&reader);
        let event = match r {
            Ok(event) => event,
            Err(e) => Event::Failed(e),
        };
        done = match event {
            Event::EndDocument => true,
            Event::Failed(_) => true,
            _ => false,
        };
        let token = Token { event, pos };
        proof {
            assert(token.deep_view() == before[0]);
            assert(before =~= seq![before[0]] + before.drop_first());
        }
        tokens.push(token);
        proof {
            assert(tokens.deep_view() =~= collected.push(before[0]));
            if done {
                assert(before =~= seq![before[0]]);
                assert(tokens.deep_view() =~= collected + before);
            } else {
                assert(tokens.deep_view() + pending(reader) =~= collected + before);
            }
        }
    }
    tokens
}

} // verus!
