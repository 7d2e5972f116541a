//! The attribute map of one XML element.
//!
//! An element handler takes from the map every attribute that it knows; what is left when it is
//! done is an attribute that the grammar does not know.

use vstd::prelude::*;
use crate::error::ParseError;
use crate::error::ParseErrorView;
use crate::text::split;
use crate::text::split_at_char;
use crate::text::str_eq;
use crate::text::strs_view;
use vstd::string::*;

verus! {

/// An attribute list as character sequences: name and value, in document order.
pub type AttribsView = Seq<(Seq<char>, Seq<char>)>;

/// The value that `key` maps to: that of the last entry of that name.
pub open spec fn attr_get(a: AttribsView, key: Seq<char>) -> Option<Seq<char>>
    decreases a.len(),
{
    if a.len() == 0 {
        None
    } else {
        match attr_get(a.drop_first(), key) {
            Some(v) => Some(v),
            None => if a[0].0 == key {
                Some(a[0].1)
            } else {
                None
            },
        }
    }
}

/// The list without the entries named `key`.
pub open spec fn attr_without(a: AttribsView, key: Seq<char>) -> AttribsView
    decreases a.len(),
{
    if a.len() == 0 {
        a
    } else if a[0].0 == key {
        attr_without(a.drop_first(), key)
    } else {
        seq![a[0]] + attr_without(a.drop_first(), key)
    }
}

/// A value that is written as the text of an attribute.
pub trait FromText: Sized + DeepView {
    /// The value that a text stands for, if it stands for one.
    spec fn spec_from_str(s: Seq<char>) -> Option<Self::V>;

    /// Reads a value from its text.
    fn from_str(s: &str) -> (r: Result<Self, ()>)
        ensures
            match r {
                Ok(v) => Self::spec_from_str(s@) == Some(v.deep_view()),
                Err(_) => Self::spec_from_str(s@) is None,
            },
    ;
}

impl FromText for bool {
    open spec fn spec_from_str(s: Seq<char>) -> Option<bool> {
        if s == "true"@ {
            Some(true)
        } else if s == "false"@ {
            Some(false)
        } else {
            None
        }
    }

    fn from_str(s: &str) -> (r: Result<bool, ()>) {
        if str_eq(s, "true") {
            Ok(true)
        } else if str_eq(s, "false") {
            Ok(false)
        } else {
            Err(())
        }
    }
}

/// The values that a list of texts stands for, if each text stands for one.
pub open spec fn spec_parse_all<T: FromText>(pieces: Seq<Seq<char>>) -> Option<Seq<T::V>> {
    if forall|i: int| 0 <= i < pieces.len() ==> (#[trigger] T::spec_from_str(pieces[i])) is Some {
        Some(Seq::new(pieces.len(), |i: int| T::spec_from_str(pieces[i])->0))
    } else {
        None
    }
}

/// The values that a comma-separated list stands for, if each of its pieces stands for one.
pub open spec fn spec_parse_list<T: FromText>(value: Seq<char>) -> Option<Seq<T::V>> {
    spec_parse_all::<T>(split(value, ','))
}

/// Taking an optional attribute: its value, if it is present, and the map without it.
pub open spec fn spec_take(a: AttribsView, key: Seq<char>) -> (Option<Seq<char>>, AttribsView) {
    (attr_get(a, key), attr_without(a, key))
}

/// Taking an optional attribute that holds a comma-separated list.
pub open spec fn spec_take_list(a: AttribsView, key: Seq<char>) -> (
    Option<Seq<Seq<char>>>,
    AttribsView,
) {
    (
        match attr_get(a, key) {
            Some(v) => Some(split(v, ',')),
            None => None,
        },
        attr_without(a, key),
    )
}

/// Taking a required attribute: `ReqAttrib` if it is missing.
pub open spec fn spec_req(a: AttribsView, element: Seq<char>, key: Seq<char>) -> Result<
    (Seq<char>, AttribsView),
    ParseErrorView,
> {
    match attr_get(a, key) {
        Some(v) => Ok((v, attr_without(a, key))),
        None => Err(ParseErrorView::ReqAttrib(element, key)),
    }
}

/// Taking a required attribute that holds a comma-separated list.
pub open spec fn spec_req_list(a: AttribsView, element: Seq<char>, key: Seq<char>) -> Result<
    (Seq<Seq<char>>, AttribsView),
    ParseErrorView,
> {
    match attr_get(a, key) {
        Some(v) => Ok((split(v, ','), attr_without(a, key))),
        None => Err(ParseErrorView::ReqAttrib(element, key)),
    }
}

/// Taking an optional attribute that holds a value: `BadAttrib` if its text stands for none.
pub open spec fn spec_try_get<T: FromText>(
    a: AttribsView,
    element: Seq<char>,
    key: Seq<char>,
) -> Result<(Option<T::V>, AttribsView), ParseErrorView> {
    match attr_get(a, key) {
        None => Ok((None, attr_without(a, key))),
        Some(v) => match T::spec_from_str(v) {
            Some(t) => Ok((Some(t), attr_without(a, key))),
            None => Err(ParseErrorView::BadAttrib(element, key, v)),
        },
    }
}

/// Taking an optional attribute that holds a comma-separated list of values: `BadAttrib` if
/// one of its pieces stands for none.
pub open spec fn spec_try_get_list<T: FromText>(
    a: AttribsView,
    element: Seq<char>,
    key: Seq<char>,
) -> Result<(Option<Seq<T::V>>, AttribsView), ParseErrorView> {
    match attr_get(a, key) {
        None => Ok((None, attr_without(a, key))),
        Some(v) => match spec_parse_list::<T>(v) {
            Some(list) => Ok((Some(list), attr_without(a, key))),
            None => Err(ParseErrorView::BadAttrib(element, key, v)),
        },
    }
}

/// Reads each piece of a comma-separated list.
pub fn parse_list<T: FromText>(value: &str) -> (r: Option<Vec<T>>)
    ensures
        r.deep_view() == spec_parse_list::<T>(value@),
{
    let pieces = split_at_char(value, ',');
    let mut out: Vec<T> = Vec::new();
    let mut i: usize = 0;
    let ghost texts = strs_view(pieces@);
    while i < pieces.len()
        invariant
            i <= pieces.len(),
            texts == strs_view(pieces@),
            texts == split(value@, ','),
            out.len() == i,
            forall|j: int| 0 <= j < i ==> (#[trigger] T::spec_from_str(texts[j])) == Some(
                out@[j].deep_view(),
            ),
        decreases pieces.len() - i,
    {
        match T::from_str(pieces[i].as_str()) {
            Ok(v) => {
                out.push(v);
            },
            Err(_) => {
                proof {
                    assert(T::spec_from_str(texts[i as int]) is None);
                }
                return None;
            },
        }
        i += 1;
    }
    proof {
        assert(out.deep_view() =~= Seq::new(texts.len(), |i: int| T::spec_from_str(texts[i])->0));
    }
    Some(out)
}

/// The attributes of one element, by name.
#[derive(Debug)]
pub struct Attribs {
    pub entries: Vec<(String, String)>,
}

impl DeepView for Attribs {
    type V = AttribsView;

    open spec fn deep_view(&self) -> AttribsView {
        self.entries.deep_view()
    }
}

impl Attribs {
    /// The map that holds the given attributes. Of two attributes with one name the later counts.
    pub fn from_pairs(pairs: Vec<(String, String)>) -> (r: Attribs)
        ensures
            r.deep_view() == pairs.deep_view(),
    {
        Attribs { entries: pairs }
    }

    /// Whether no attribute is left.
    pub fn is_empty(&self) -> (r: bool)
        ensures
            r == (self.deep_view().len() == 0),
    {
        self.entries.len() == 0
    }

    /// Whether an attribute named `key` is present.
    pub fn contains_key(&self, key: &str) -> (r: bool)
        ensures
            r == attr_get(self.deep_view(), key@).is_some(),
    {
        let mut i: usize = self.entries.len();
        let ghost a = self.deep_view();
        proof {
            assert(a.subrange(i as int, a.len() as int) =~= Seq::empty());
        }
        while i > 0
            invariant
                i <= self.entries.len(),
                a == self.deep_view(),
                attr_get(a.subrange(i as int, a.len() as int), key@).is_none(),
            decreases i,
        {
            i -= 1;
            proof {
                let s = a.subrange(i as int, a.len() as int);
                assert(s.drop_first() =~= a.subrange(i + 1, a.len() as int));
                assert(s[0] == a[i as int]);
            }
            if str_eq(self.entries[i].0.as_str(), key) {
                proof {
                    assert(a.subrange(0, a.len() as int) =~= a);
                    lemma_get_suffix(a, key@, i as int);
                }
                return true;
            }
        }
        proof {
            assert(a.subrange(0, a.len() as int) =~= a);
        }
        false
    }

    /// Takes a required attribute.
    pub fn req_attrib(&mut self, element: &str, attrib: &str) -> (r: Result<String, ParseError>)
        ensures
            match spec_req(old(self).deep_view(), element@, attrib@) {
                Ok((v, rest)) => r is Ok && r->Ok_0@ == v && final(self).deep_view() == rest,
                Err(e) => r is Err && r->Err_0.deep_view() == e,
            },
            final(self).deep_view() == attr_without(old(self).deep_view(), attrib@),
    {
        match self.remove(attrib) {
            Some(v) => Ok(v),
            None => Err(ParseError::ReqAttrib(String::from_str(element), String::from_str(attrib))),
        }
    }

    /// Takes a required attribute that holds a comma-separated list.
    pub fn req_list(&mut self, element: &str, attrib: &str) -> (r: Result<Vec<String>, ParseError>)
        ensures
            match spec_req_list(old(self).deep_view(), element@, attrib@) {
                Ok((v, rest)) => r is Ok && r->Ok_0.deep_view() == v && final(self).deep_view()
                    == rest,
                Err(e) => r is Err && r->Err_0.deep_view() == e,
            },
            final(self).deep_view() == attr_without(old(self).deep_view(), attrib@),
    {
        match self.remove(attrib) {
            Some(v) => {
                let list = split_at_char(v.as_str(), ',');
                proof {
                    assert(list.deep_view() =~= strs_view(list@));
                }
                Ok(list)
            },
            None => Err(ParseError::ReqAttrib(String::from_str(element), String::from_str(attrib))),
        }
    }

    /// Takes an optional attribute that holds a comma-separated list.
    pub fn remove_list(&mut self, attrib: &str) -> (r: Option<Vec<String>>)
        ensures
            r.deep_view() == spec_take_list(old(self).deep_view(), attrib@).0,
            final(self).deep_view() == spec_take_list(old(self).deep_view(), attrib@).1,
    {
        match self.remove(attrib) {
            Some(v) => {
                let list = split_at_char(v.as_str(), ',');
                proof {
                    assert(list.deep_view() =~= strs_view(list@));
                }
                Some(list)
            },
            None => None,
        }
    }

    /// Takes an optional attribute and reads the value that its text stands for.
    pub fn try_get<T: FromText>(&mut self, element: &str, attrib: &str) -> (r: Result<
        Option<T>,
        ParseError,
    >)
        ensures
            match spec_try_get::<T>(old(self).deep_view(), element@, attrib@) {
                Ok((v, rest)) => r is Ok && r->Ok_0.deep_view() == v && final(self).deep_view()
                    == rest,
                Err(e) => r is Err && r->Err_0.deep_view() == e,
            },
            final(self).deep_view() == attr_without(old(self).deep_view(), attrib@),
    {
        match self.remove(attrib) {
            None => Ok(None),
            Some(value) => match T::from_str(value.as_str()) {
                Ok(v) => Ok(Some(v)),
                Err(_) => Err(
                    ParseError::BadAttrib(
                        String::from_str(element),
                        String::from_str(attrib),
                        value,
                    ),
                ),
            },
        }
    }

    /// Takes an optional attribute that holds a comma-separated list of values.
    pub fn try_get_list<T: FromText>(&mut self, element: &str, attrib: &str) -> (r: Result<
        Option<Vec<T>>,
        ParseError,
    >)
        ensures
            match spec_try_get_list::<T>(old(self).deep_view(), element@, attrib@) {
                Ok((v, rest)) => r is Ok && r->Ok_0.deep_view() == v && final(self).deep_view()
                    == rest,
                Err(e) => r is Err && r->Err_0.deep_view() == e,
            },
            final(self).deep_view() == attr_without(old(self).deep_view(), attrib@),
    {
        match self.remove(attrib) {
            None => Ok(None),
            Some(value) => match parse_list::<T>(value.as_str()) {
                Some(list) => Ok(Some(list)),
                None => Err(
                    ParseError::BadAttrib(
                        String::from_str(element),
                        String::from_str(attrib),
                        value,
                    ),
                ),
            },
        }
    }

    /// A copy of the first attribute that is left, if any.
    pub fn first(&self) -> (r: Option<(String, String)>)
        ensures
            r.deep_view() == if self.deep_view().len() == 0 {
                None
            } else {
                Some(self.deep_view()[0])
            },
    {
        if self.entries.len() == 0 {
            None
        } else {
            let name = self.entries[0].0.clone();
            let value = self.entries[0].1.clone();
            proof {
                assert(self.deep_view()[0] == self.entries@[0].deep_view());
            }
            Some((name, value))
        }
    }

    /// Takes the attribute named `key` out of the map and returns its value.
    pub fn remove(&mut self, key: &str) -> (r: Option<String>)
        ensures
            r.deep_view() == attr_get(old(self).deep_view(), key@),
            final(self).deep_view() == attr_without(old(self).deep_view(), key@),
    {
        let mut found: Option<String> = None;
        let mut i: usize = self.entries.len();
        let ghost a = self.deep_view();
        proof {
            assert(a.subrange(i as int, a.len() as int) =~= Seq::empty());
            assert(a.subrange(0, i as int) =~= a);
        }
        while i > 0
            invariant
                i <= self.entries.len(),
                i <= a.len(),
                a == old(self).deep_view(),
                found.deep_view() == attr_get(a.subrange(i as int, a.len() as int), key@),
                self.deep_view() == a.subrange(0, i as int) + attr_without(
                    a.subrange(i as int, a.len() as int),
                    key@,
                ),
            decreases i,
        {
            i -= 1;
            proof {
                let s = a.subrange(i as int, a.len() as int);
                assert(s.drop_first() =~= a.subrange(i + 1, a.len() as int));
                assert(s[0] == a[i as int]);
                assert(self.deep_view()[i as int] == a[i as int]);
            }
            if str_eq(self.entries[i].0.as_str(), key) {
                let ghost before = self.entries.deep_view();
                let entry = self.entries.remove(i);
                proof {
                    assert(entry.deep_view() == a[i as int]);
                    assert(self.entries.deep_view() =~= before.remove(i as int));
                    assert(before.remove(i as int) =~= a.subrange(0, i as int) + attr_without(
                        a.subrange(i + 1, a.len() as int),
                        key@,
                    ));
                }
                if found.is_none() {
                    found = Some(entry.1);
                }
            } else {
                proof {
                    assert(a.subrange(0, i + 1) =~= a.subrange(0, i as int) + seq![a[i as int]]);
                    assert(self.deep_view() =~= a.subrange(0, i as int) + (seq![a[i as int]]
                        + attr_without(a.subrange(i + 1, a.len() as int), key@)));
                }
            }
        }
        proof {
            assert(a.subrange(0, a.len() as int) =~= a);
            assert(a.subrange(0, 0) + attr_without(a, key@) =~= attr_without(a, key@));
        }
        found
    }
}

/// Taking an attribute out of the map leaves none of that name.
pub proof fn lemma_taken_is_gone(a: AttribsView, key: Seq<char>)
    ensures
        attr_get(attr_without(a, key), key) is None,
    decreases a.len(),
{
    if a.len() > 0 {
        lemma_taken_is_gone(a.drop_first(), key);
        if a[0].0 != key {
            let rest = attr_without(a.drop_first(), key);
            assert((seq![a[0]] + rest).drop_first() =~= rest);
        }
    }
}

/// Taking an attribute out of the map does not change what another name maps to: a handler
/// may take its attributes in any order.
pub proof fn lemma_taken_leaves_others(a: AttribsView, key: Seq<char>, other: Seq<char>)
    requires
        key != other,
    ensures
        attr_get(attr_without(a, key), other) == attr_get(a, other),
    decreases a.len(),
{
    if a.len() > 0 {
        lemma_taken_leaves_others(a.drop_first(), key, other);
        if a[0].0 != key {
            let rest = attr_without(a.drop_first(), key);
            assert((seq![a[0]] + rest).drop_first() =~= rest);
        }
    }
}

/// An entry named `key` at `i` makes the lookup succeed.
pub proof fn lemma_get_suffix(a: AttribsView, key: Seq<char>, i: int)
    requires
        0 <= i < a.len(),
        a[i].0 == key,
    ensures
        attr_get(a, key).is_some(),
    decreases a.len(),
{
    if i == 0 {
    } else {
        assert(a.drop_first()[i - 1] == a[i]);
        lemma_get_suffix(a.drop_first(), key, i - 1);
    }
}

} // verus!
