//! The document as a whole: from its tokens, or from its bytes, to the indexed registry.

use vstd::prelude::*;
use vstd::string::*;
use crate::attribs::Attribs;
use crate::error::Error;
use crate::error::ErrorView;
use crate::error::ParseError;
use crate::error::ParseErrorView;
use crate::error::TextPosition;
use crate::events::Event;
use crate::events::EventView;
use crate::events::Token;
use crate::events::TokenView;
use crate::events::document;
use crate::events::read_tokens;
use crate::parse::protocol::Parse;
use crate::parse::protocol::Reader;
use crate::parse::protocol::ReaderView;
use crate::parse::registry::Registry;
use crate::parse::registry::RegistryView;
use crate::repr::Vulkan;
use crate::repr::VulkanView;
use crate::trans::link::spec_link;

verus! {

/// Where the registry document is taken from.
#[derive(Debug)]
pub struct ParseSettings {
    /// The directory that holds the registry document.
    pub path: Option<String>,
    /// The address that the registry document is fetched from.
    pub url: Option<String>,
    /// Whether the document is fetched anew although a copy is there.
    pub update: bool,
}

impl ParseSettings {
    /// The settings of a run without options.
    pub fn new() -> (r: ParseSettings)
        ensures
            r.path is None,
            r.url is None,
            !r.update,
    {
        ParseSettings { path: None, url: None, update: false }
    }
}

impl Default for ParseSettings {
    fn default() -> (r: ParseSettings)
        ensures
            r.path is None,
            r.url is None,
            !r.update,
    {
        ParseSettings::new()
    }
}

/// The registry that a document holds, and the reader after the document. The document is
/// read to its end; the root element is read by the registry's handler; text or a closing
/// tag outside the root element is an error, and so is a document without a root element.
pub open spec fn spec_create_registry(reader: ReaderView, found: Option<RegistryView>) -> (
    Result<RegistryView, ParseErrorView>,
    ReaderView,
)
    decreases reader.pending.len(),
{
    let next = reader.step();
    match reader.head() {
        EventView::EndDocument => (
            match found {
                Some(registry) => Ok(registry),
                None => Err(ParseErrorView::EmptyRegistry),
            },
            next,
        ),
        EventView::Failed(e) => (Err(ParseErrorView::XmlRead(e)), next),
        EventView::Start(name, attribs) => {
            let (r, after) = Registry::spec_read(next, name, attribs);
            match r {
                Ok(registry) => if after.pending.len() <= next.pending.len() {
                    spec_create_registry(after, Some(registry))
                } else {
                    (Err(ParseErrorView::EmptyRegistry), after)
                },
                Err(e) => (Err(e), after),
            }
        },
        EventView::End(name) => (Err(ParseErrorView::BadEnd(name)), next),
        EventView::Text(text) => (Err(ParseErrorView::BadContent(Seq::empty(), text)), next),
        EventView::Misc => spec_create_registry(next, found),
    }
}

/// The indexed registry that the tokens of a document come to. A parse error comes with the
/// place of the last token read.
pub open spec fn spec_from_tokens(tokens: Seq<TokenView>) -> Result<VulkanView, ErrorView> {
    let (r, after) = spec_create_registry(
        ReaderView { pending: tokens, last: TextPosition { row: 0, column: 0 } },
        None,
    );
    match r {
        Err(e) => Err(ErrorView::Parse(after.last, e)),
        Ok(registry) => match spec_link(registry) {
            Ok(v) => Ok(v),
            Err(e) => Err(ErrorView::Trans(e)),
        },
    }
}

/// The indexed registry that a document comes to. A document of no bytes is an empty
/// registry.
pub open spec fn spec_from_xml(bytes: Seq<u8>) -> Result<VulkanView, ErrorView> {
    if bytes.len() == 0 {
        Err(ErrorView::Parse(TextPosition { row: 0, column: 0 }, ParseErrorView::EmptyRegistry))
    } else {
        spec_from_tokens(document(bytes))
    }
}

impl Vulkan {
    /// Reads the registry from a reader at the beginning of a document.
    pub fn create_registry(reader: &mut Reader) -> (r: Result<Registry, ParseError>)
        ensures
            match spec_create_registry(old(reader).deep_view(), None).0 {
                Ok(registry) => r is Ok && r->Ok_0.deep_view() == registry,
                Err(e) => r is Err && r->Err_0.deep_view() == e,
            },
            final(reader).deep_view() == spec_create_registry(old(reader).deep_view(), None).1,
    {
        let mut registry: Option<Registry> = None;
        let ghost start = reader.deep_view();
        loop
            invariant
                start == old(reader).deep_view(),
                spec_create_registry(reader.deep_view(), registry.deep_view())
                    == spec_create_registry(start, None),
            decreases reader.deep_view().pending.len(),
        {
            match reader.next() {
                Event::EndDocument => {
                    return match registry {
                        Some(r) => Ok(r),
                        None => Err(ParseError::EmptyRegistry),
                    };
                },
                Event::Failed(e) => {
                    return Err(ParseError::XmlRead(e));
                },
                Event::Start(name, attributes) => {
                    let mut attribs = Attribs::from_pairs(attributes);
                    registry = Some(Registry::parse(reader, name, &mut attribs)?);
                },
                Event::End(name) => {
                    return Err(ParseError::BadEnd(name));
                },
                Event::Text(text) => {
                    return Err(ParseError::BadContent(String::new(), text));
                },
                Event::Misc => {},
            }
        }
    }

    /// Parses and links the tokens of a document.
    ///
    /// On success every handle in the result refers to a live entry of its table.
    pub fn from_tokens(tokens: Vec<Token>) -> (r: Result<Vulkan, Error>)
        ensures
            match spec_from_tokens(tokens.deep_view()) {
                Ok(v) => r is Ok && r->Ok_0.deep_view() == v,
                Err(e) => r is Err && r->Err_0.deep_view() == e,
            },
            r is Ok ==> r->Ok_0.deep_view().wf(),
    {
        let mut reader = Reader::new(tokens);
        match Vulkan::create_registry(&mut reader) {
            Err(e) => Err(Error::parse(reader.position(), e)),
            Ok(registry) => match Vulkan::try_from(registry) {
                Ok(v) => Ok(v),
                Err(e) => Err(Error::Trans(e)),
            },
        }
    }

    /// Parses and links a registry document.
    ///
    /// On success every handle in the result refers to a live entry of its table.
    pub fn from_xml(bytes: &[u8]) -> (r: Result<Vulkan, Error>)
        ensures
            match spec_from_xml(bytes@) {
                Ok(v) => r is Ok && r->Ok_0.deep_view() == v,
                Err(e) => r is Err && r->Err_0.deep_view() == e,
            },
            r is Ok ==> r->Ok_0.deep_view().wf(),
    {
        if bytes.len() == 0 {
            return Err(Error::parse(TextPosition::new(), ParseError::EmptyRegistry));
        }
        Vulkan::from_tokens(read_tokens(bytes))
    }
}

} // verus!
