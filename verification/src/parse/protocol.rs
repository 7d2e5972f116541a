//! The protocol that every element handler follows, and the driver that runs a handler over
//! the event stream.

use vstd::prelude::*;
use vstd::string::*;
use crate::attribs::Attribs;
use crate::attribs::AttribsView;
use crate::error::ParseError;
use crate::error::ParseErrorView;
use crate::error::TextPosition;
use crate::events::Event;
use crate::events::EventView;
use crate::events::Token;
use crate::events::TokenView;
use crate::text::str_eq;

verus! {

/// An empty list.
pub fn no_items<T: DeepView>() -> (v: Vec<T>)
    ensures
        v.deep_view() == Seq::<T::V>::empty(),
{
    let v: Vec<T> = Vec::new();
    proof {
        assert(v.deep_view() =~= Seq::<T::V>::empty());
    }
    v
}

/// Appends an item to a list.
pub fn add_item<T: DeepView>(v: &mut Vec<T>, item: T)
    ensures
        final(v).deep_view() == old(v).deep_view().push(item.deep_view()),
{
    v.push(item);
    proof {
        assert(v.deep_view() =~= old(v).deep_view().push(item.deep_view()));
    }
}

/// A `Result` with both sides as views.
pub open spec fn result_view<T: DeepView, E: DeepView>(r: Result<T, E>) -> Result<T::V, E::V> {
    match r {
        Ok(t) => Ok(t.deep_view()),
        Err(e) => Err(e.deep_view()),
    }
}

/// What was read, with `f` applied to the value.
pub open spec fn map_read<A, B>(
    read: (Result<A, ParseErrorView>, ReaderView),
    f: spec_fn(A) -> B,
) -> (
    Result<B, ParseErrorView>,
    ReaderView,
) {
    (
        match read.0 {
            Ok(x) => Ok(f(x)),
            Err(e) => Err(e),
        },
        read.1,
    )
}

/// The state of a reader: the tokens it has yet to hand out, and the place of the last token
/// that it handed out.
pub ghost struct ReaderView {
    pub pending: Seq<TokenView>,
    pub last: TextPosition,
}

impl ReaderView {
    /// The event that the reader hands out next. A reader that has run out of tokens is at
    /// the end of the document and stays there.
    pub open spec fn head(self) -> EventView {
        if self.pending.len() == 0 {
            EventView::EndDocument
        } else {
            self.pending[0].event
        }
    }

    /// The reader after it has handed out its next event.
    pub open spec fn step(self) -> ReaderView {
        if self.pending.len() == 0 {
            self
        } else {
            ReaderView { pending: self.pending.drop_first(), last: self.pending[0].pos }
        }
    }
}

/// A cursor over the tokens of a document.
pub struct Reader {
    rest: Vec<Token>,
    last: TextPosition,
}

impl DeepView for Reader {
    type V = ReaderView;

    closed spec fn deep_view(&self) -> ReaderView {
        ReaderView { pending: self.rest.deep_view().reverse(), last: self.last }
    }
}

impl Reader {
    /// A reader at the beginning of the given tokens.
    pub fn new(tokens: Vec<Token>) -> (r: Reader)
        ensures
            r.deep_view() == (ReaderView {
                pending: tokens.deep_view(),
                last: TextPosition { row: 0, column: 0 },
            }),
    {
        let mut tokens = tokens;
        let mut rest: Vec<Token> = Vec::new();
        let ghost all = tokens.deep_view();
        while tokens.len() > 0
            invariant
                rest.deep_view() + tokens.deep_view().reverse() == all.reverse(),
            decreases tokens.len(),
        {
            let ghost before = tokens.deep_view();
            let ghost done = rest.deep_view();
            let token = tokens.pop().unwrap();
            proof {
                assert(tokens.deep_view() =~= before.drop_last());
                assert(token.deep_view() == before.last());
                assert(before.reverse() =~= seq![before.last()] + before.drop_last().reverse());
            }
            rest.push(token);
            proof {
                assert(rest.deep_view() =~= done.push(before.last()));
                assert(rest.deep_view() + tokens.deep_view().reverse() =~= done + before.reverse());
            }
        }
        proof {
            assert(tokens.deep_view().reverse() =~= Seq::empty());
            assert(rest.deep_view() =~= rest.deep_view() + tokens.deep_view().reverse());
            assert(all.reverse().reverse() =~= all);
        }
        Reader { rest, last: TextPosition { row: 0, column: 0 } }
    }

    /// Hands out the next event.
    pub fn next(&mut self) -> (event: Event)
        ensures
            event.deep_view() == old(self).deep_view().head(),
            final(self).deep_view() == old(self).deep_view().step(),
    {
        let ghost before = self.rest.deep_view();
        match self.rest.pop() {
            Some(token) => {
                proof {
                    assert(self.rest.deep_view() =~= before.drop_last());
                    assert(token.deep_view() == before.last());
                    assert(before.reverse()[0] == before.last());
                    assert(before.reverse().drop_first() =~= before.drop_last().reverse());
                }
                self.last = token.pos;
                token.event
            },
            None => {
                proof {
                    assert(before.reverse() =~= Seq::empty());
                }
                Event::EndDocument
            },
        }
    }

    /// The place of the last event handed out.
    pub fn position(&self) -> (pos: TextPosition)
        ensures
            pos == self.deep_view().last,
    {
        self.last
    }
}

/// The protocol of an element handler. A handler starts from an empty accumulator, takes the
/// attributes it knows from the element's attribute map, and is then fed the element's children
/// and text in document order, and what is neither.
pub trait GenericParse: Sized + DeepView {
    /// The name of the element that this handler reads.
    spec fn spec_name() -> Seq<char>;

    /// The accumulator before anything is read.
    spec fn spec_empty() -> Self::V;

    /// The accumulator and the attribute map after the handler has taken its attributes.
    spec fn spec_attribs(acc: Self::V, element: Seq<char>, attribs: AttribsView) -> Result<
        (Self::V, AttribsView),
        ParseErrorView,
    >;

    /// The accumulator and the reader after a child element has been read.
    spec fn spec_child(
        acc: Self::V,
        reader: ReaderView,
        element: Seq<char>,
        attribs: AttribsView,
    ) -> (Result<Self::V, ParseErrorView>, ReaderView);

    /// The accumulator after a run of character data.
    spec fn spec_text(acc: Self::V, text: Seq<char>) -> Result<Self::V, ParseErrorView>;

    fn name() -> (r: &'static str)
        ensures
            r@ == Self::spec_name(),
    ;

    fn empty() -> (r: Self)
        ensures
            r.deep_view() == Self::spec_empty(),
    ;

    fn parse_attribs(&mut self, element: &str, attribs: &mut Attribs) -> (r: Result<
        (),
        ParseError,
    >)
        ensures
            match Self::spec_attribs(old(self).deep_view(), element@, old(attribs).deep_view()) {
                Ok((acc, rest)) => r is Ok && final(self).deep_view() == acc
                    && final(attribs).deep_view() == rest,
                Err(e) => r is Err && r->Err_0.deep_view() == e,
            },
    ;

    fn parse_child(
        &mut self,
        reader: &mut Reader,
        element: String,
        attribs: &mut Attribs,
    ) -> (r: Result<(), ParseError>)
        ensures
            final(reader).deep_view() == Self::spec_child(
                old(self).deep_view(),
                old(reader).deep_view(),
                element@,
                old(attribs).deep_view(),
            ).1,
            final(reader).deep_view().pending.len() <= old(reader).deep_view().pending.len(),
            match Self::spec_child(
                old(self).deep_view(),
                old(reader).deep_view(),
                element@,
                old(attribs).deep_view(),
            ).0 {
                Ok(acc) => r is Ok && final(self).deep_view() == acc,
                Err(e) => r is Err && r->Err_0.deep_view() == e,
            },
    ;

    fn parse_text(&mut self, text: String) -> (r: Result<(), ParseError>)
        ensures
            match Self::spec_text(old(self).deep_view(), text@) {
                Ok(acc) => r is Ok && final(self).deep_view() == acc,
                Err(e) => r is Err && r->Err_0.deep_view() == e,
            },
    ;

    /// Takes in what is neither a child nor text: white space, a comment, a processing
    /// instruction. A handler lets it pass.
    fn parse_misc(&mut self) -> (r: Result<(), ParseError>)
        ensures
            r is Ok,
            final(self).deep_view() == old(self).deep_view(),
    {
        Ok(())
    }
}

/// The element's body: children and text up to the closing tag.
pub open spec fn spec_body<T: GenericParse>(acc: T::V, reader: ReaderView) -> (
    Result<T::V, ParseErrorView>,
    ReaderView,
)
    decreases reader.pending.len(),
{
    let next = reader.step();
    match reader.head() {
        EventView::EndDocument => (Err(ParseErrorView::DocEnd(T::spec_name())), next),
        EventView::Failed(e) => (Err(ParseErrorView::XmlRead(e)), next),
        EventView::Start(name, attribs) => {
            let (r, after) = T::spec_child(acc, next, name, attribs);
            match r {
                Ok(acc) => if after.pending.len() <= next.pending.len() {
                    spec_body::<T>(acc, after)
                } else {
                    (Err(ParseErrorView::DocEnd(T::spec_name())), after)
                },
                Err(e) => (Err(e), after),
            }
        },
        EventView::End(name) => if name == T::spec_name() {
            (Ok(acc), next)
        } else {
            (Err(ParseErrorView::BadEnd(name)), next)
        },
        EventView::Text(text) => match T::spec_text(acc, text) {
            Ok(acc) => spec_body::<T>(acc, next),
            Err(e) => (Err(e), next),
        },
        EventView::Misc => spec_body::<T>(acc, next),
    }
}

/// One element, from its opening tag (already read) to its closing tag.
pub open spec fn spec_parse<T: GenericParse>(
    reader: ReaderView,
    element: Seq<char>,
    attribs: AttribsView,
) -> (Result<T::V, ParseErrorView>, ReaderView) {
    if element != T::spec_name() {
        (Err(ParseErrorView::BadStart(element)), reader)
    } else {
        match T::spec_attribs(T::spec_empty(), element, attribs) {
            Err(e) => (Err(e), reader),
            Ok((acc, rest)) => if rest.len() > 0 {
                (Err(ParseErrorView::UnreadAttrib(element, rest[0].0, rest[0].1)), reader)
            } else {
                spec_body::<T>(acc, reader)
            },
        }
    }
}

/// An element that parses has no attribute that its handler does not know: the handler takes
/// what it knows from the attribute map, and the element parses only if nothing is left.
pub proof fn lemma_attributes_exhausted<T: GenericParse>(
    reader: ReaderView,
    element: Seq<char>,
    attribs: AttribsView,
)
    requires
        spec_parse::<T>(reader, element, attribs).0 is Ok,
    ensures
        T::spec_attribs(T::spec_empty(), element, attribs) is Ok,
        T::spec_attribs(T::spec_empty(), element, attribs)->Ok_0.1.len() == 0,
{
}

/// What can be read from the event stream once its opening tag has been read.
pub trait Parse: Sized + DeepView {
    /// The value read and the reader after it.
    spec fn spec_read(reader: ReaderView, element: Seq<char>, attribs: AttribsView) -> (
        Result<Self::V, ParseErrorView>,
        ReaderView,
    );

    /// Reads one value. The opening tag has been read: `element` is its name and `attribs`
    /// its attributes.
    fn parse(reader: &mut Reader, element: String, attribs: &mut Attribs) -> (r: Result<
        Self,
        ParseError,
    >)
        ensures
            result_view(r) == Self::spec_read(
                old(reader).deep_view(),
                element@,
                old(attribs).deep_view(),
            ).0,
            final(reader).deep_view() == Self::spec_read(
                old(reader).deep_view(),
                element@,
                old(attribs).deep_view(),
            ).1,
            final(reader).deep_view().pending.len() <= old(reader).deep_view().pending.len(),
            r is Ok ==> final(attribs).deep_view().len() == 0,
    ;
}

impl<T: GenericParse> Parse for T {
    open spec fn spec_read(reader: ReaderView, element: Seq<char>, attribs: AttribsView) -> (
        Result<T::V, ParseErrorView>,
        ReaderView,
    ) {
        spec_parse::<T>(reader, element, attribs)
    }

    fn parse(reader: &mut Reader, element: String, attribs: &mut Attribs) -> (r: Result<
        T,
        ParseError,
    >) {
        parse_element::<T>(reader, element, attribs)
    }
}

/// Reads one element with the handler `T`. The opening tag has been read: `element` is its
/// name and `attribs` its attributes. On success every attribute has been taken.
pub fn parse_element<T: GenericParse>(
    reader: &mut Reader,
    element: String,
    attribs: &mut Attribs,
) -> (r:
    Result<T, ParseError>)
    ensures
        result_view(r) == spec_parse::<T>(
            old(reader).deep_view(),
            element@,
            old(attribs).deep_view(),
        ).0,
        final(reader).deep_view() == spec_parse::<T>(
            old(reader).deep_view(),
            element@,
            old(attribs).deep_view(),
        ).1,
        final(reader).deep_view().pending.len() <= old(reader).deep_view().pending.len(),
        r is Ok ==> final(attribs).deep_view().len() == 0,
{
    if !str_eq(element.as_str(), T::name()) {
        return Err(ParseError::BadStart(element));
    }
    let mut item = T::empty();
    match item.parse_attribs(element.as_str(), attribs) {
        Err(e) => {
            return Err(e);
        },
        Ok(()) => {},
    }
    match attribs.first() {
        Some((attrib, value)) => {
            return Err(ParseError::UnreadAttrib(element, attrib, value));
        },
        None => {},
    }
    let ghost start = reader.deep_view();
    let ghost acc0 = item.deep_view();
    loop
        invariant
            spec_body::<T>(item.deep_view(), reader.deep_view()) == spec_body::<T>(acc0, start),
            spec_body::<T>(acc0, start) == spec_parse::<T>(
                old(reader).deep_view(),
                element@,
                old(attribs).deep_view(),
            ),
            reader.deep_view().pending.len() <= start.pending.len(),
            start == old(reader).deep_view(),
            attribs.deep_view().len() == 0,
        decreases reader.deep_view().pending.len(),
    {
        let ghost before = reader.deep_view();
        match reader.next() {
            Event::EndDocument => {
                return Err(ParseError::DocEnd(String::from_str(T::name())));
            },
            Event::Failed(e) => {
                return Err(ParseError::XmlRead(e));
            },
            Event::Start(name, attributes) => {
                let mut child_attribs = Attribs::from_pairs(attributes);
                match item.parse_child(reader, name, &mut child_attribs) {
                    Err(e) => {
                        return Err(e);
                    },
                    Ok(()) => {},
                }
            },
            Event::End(name) => {
                if str_eq(name.as_str(), T::name()) {
                    return Ok(item);
                } else {
                    return Err(ParseError::BadEnd(name));
                }
            },
            Event::Text(text) => {
                match item.parse_text(text) {
                    Err(e) => {
                        return Err(e);
                    },
                    Ok(()) => {},
                }
            },
            Event::Misc => {
                match item.parse_misc() {
                    Err(e) => {
                        return Err(e);
                    },
                    Ok(()) => {},
                }
            },
        }
    }
}

} // verus!
