//! Mixed content: text interleaved with `name`, `type`, `enum` and `comment` children.
//!
//! Members, prototypes, parameters and type bodies keep their content as an ordered list of
//! items, so that a C declaration can be put together again from it.

use vstd::prelude::*;
use vstd::string::*;
use crate::attribs::Attribs;
use crate::attribs::AttribsView;
use crate::error::ParseError;
use crate::error::ParseErrorView;
use crate::events::Event;
use crate::events::EventView;
use crate::parse::protocol::Parse;
use crate::parse::protocol::Reader;
use crate::parse::protocol::ReaderView;
use crate::text::find_char;
use crate::text::index_of;
use crate::text::str_eq;

verus! {

/// What an item of mixed content is.
#[derive(Debug, Clone, Copy, PartialEq, Eq, Structural)]
pub enum GenericItemKind {
    Text,
    Type,
    Name,
    Enum,
    Comment,
}

/// One item of mixed content: a run of text, or the text of a child element.
#[derive(Debug)]
pub struct GenericItem {
    pub text: String,
    pub kind: GenericItemKind,
}

/// A `GenericItem` with its text as a character sequence.
pub ghost struct GenericItemView {
    pub text: Seq<char>,
    pub kind: GenericItemKind,
}

impl DeepView for GenericItem {
    type V = GenericItemView;

    open spec fn deep_view(&self) -> GenericItemView {
        GenericItemView { text: self.text@, kind: self.kind }
    }
}

impl GenericItem {
    /// A run of literal text.
    pub fn text(text: String) -> (r: GenericItem)
        ensures
            r.deep_view() == (GenericItemView { text: text@, kind: GenericItemKind::Text }),
    {
        GenericItem { text, kind: GenericItemKind::Text }
    }

    /// The kind of item that a child element of the given name is.
    pub open spec fn spec_kind(element: Seq<char>) -> Option<GenericItemKind> {
        if element == "name"@ {
            Some(GenericItemKind::Name)
        } else if element == "type"@ {
            Some(GenericItemKind::Type)
        } else if element == "enum"@ {
            Some(GenericItemKind::Enum)
        } else if element == "comment"@ {
            Some(GenericItemKind::Comment)
        } else {
            None
        }
    }

    /// The text of a child element, gathered up to its closing tag. A child may hold text
    /// only.
    pub open spec fn spec_content(
        reader: ReaderView,
        element: Seq<char>,
        kind: GenericItemKind,
        content: Seq<char>,
    ) -> (Result<GenericItemView, ParseErrorView>, ReaderView)
        decreases reader.pending.len(),
    {
        let next = reader.step();
        match reader.head() {
            EventView::EndDocument => (Err(ParseErrorView::DocEnd(element)), next),
            EventView::Failed(e) => (Err(ParseErrorView::XmlRead(e)), next),
            EventView::Start(name, _) => (Err(ParseErrorView::BadChild(element, name)), next),
            EventView::End(name) => if name == element {
                (Ok(GenericItemView { text: content, kind }), next)
            } else {
                (Err(ParseErrorView::BadEnd(name)), next)
            },
            EventView::Text(text) => Self::spec_content(next, element, kind, content + text),
            EventView::Misc => Self::spec_content(next, element, kind, content),
        }
    }
}

/// What stands in a text after the first `open` and before the `close` that follows it.
pub open spec fn spec_between(text: Seq<char>, open: char, close: char) -> Option<Seq<char>> {
    let a = index_of(text, open);
    if 0 <= a < text.len() {
        let rest = text.subrange(a + 1, text.len() as int);
        let b = index_of(rest, close);
        if 0 <= b < rest.len() {
            Some(rest.subrange(0, b))
        } else {
            None
        }
    } else {
        None
    }
}

/// The name of the header that an include directive names: what stands between its quotes
/// or, where an angle bracket comes first, between its angle brackets.
pub open spec fn spec_header_name(text: Seq<char>) -> Option<Seq<char>> {
    if index_of(text, '"') < index_of(text, '<') {
        spec_between(text, '"', '"')
    } else {
        spec_between(text, '<', '>')
    }
}

/// Reads what stands in a text after the first `open` and before the `close` that follows.
pub fn between(text: &str, open: char, close: char) -> (r: Option<String>)
    ensures
        r.deep_view() == spec_between(text@, open, close),
{
    let n = text.unicode_len();
    let a = find_char(text, open);
    if a < n {
        let rest = text.substring_char(a + 1, n);
        let b = find_char(rest, close);
        if b < rest.unicode_len() {
            Some(String::from_str(rest.substring_char(0, b)))
        } else {
            None
        }
    } else {
        None
    }
}

/// Reads the name of the header that an include directive names.
pub fn header_name(text: &str) -> (r: Option<String>)
    ensures
        r.deep_view() == spec_header_name(text@),
{
    if find_char(text, '"') < find_char(text, '<') {
        between(text, '"', '"')
    } else {
        between(text, '<', '>')
    }
}

impl Parse for GenericItem {
    open spec fn spec_read(reader: ReaderView, element: Seq<char>, attribs: AttribsView) -> (
        Result<GenericItemView, ParseErrorView>,
        ReaderView,
    ) {
        match GenericItem::spec_kind(element) {
            None => (Err(ParseErrorView::BadStart(element)), reader),
            Some(kind) => if attribs.len() > 0 {
                (Err(ParseErrorView::UnreadAttrib(element, attribs[0].0, attribs[0].1)), reader)
            } else {
                GenericItem::spec_content(reader, element, kind, Seq::empty())
            },
        }
    }

    fn parse(reader: &mut Reader, element: String, attribs: &mut Attribs) -> (r: Result<
        GenericItem,
        ParseError,
    >) {
        let kind = if str_eq(element.as_str(), "name") {
            GenericItemKind::Name
        } else if str_eq(element.as_str(), "type") {
            GenericItemKind::Type
        } else if str_eq(element.as_str(), "enum") {
            GenericItemKind::Enum
        } else if str_eq(element.as_str(), "comment") {
            GenericItemKind::Comment
        } else {
            return Err(ParseError::BadStart(element));
        };
        match attribs.first() {
            Some((attrib, value)) => {
                return Err(ParseError::UnreadAttrib(element, attrib, value));
            },
            None => {},
        }
        let mut content = String::new();
        let ghost start = reader.deep_view();
        loop
            invariant
                GenericItem::spec_content(reader.deep_view(), element@, kind, content@)
                    == GenericItem::spec_content(start, element@, kind, Seq::empty()),
                GenericItem::spec_kind(element@) == Some(kind),
                reader.deep_view().pending.len() <= start.pending.len(),
                start == old(reader).deep_view(),
                attribs.deep_view() == old(attribs).deep_view(),
                attribs.deep_view().len() == 0,
            decreases reader.deep_view().pending.len(),
        {
            match reader.next() {
                Event::EndDocument => {
                    return Err(ParseError::DocEnd(element));
                },
                Event::Failed(e) => {
                    return Err(ParseError::XmlRead(e));
                },
                Event::Start(name, _) => {
                    return Err(ParseError::BadChild(element, name));
                },
                Event::End(name) => {
                    if str_eq(name.as_str(), element.as_str()) {
                        return Ok(GenericItem { text: content, kind });
                    } else {
                        return Err(ParseError::BadEnd(name));
                    }
                },
                Event::Text(text) => {
                    content.append(text.as_str());
                },
                Event::Misc => {},
            }
        }
    }
}

} // verus!
