//! From mixed content to a declaration.
//!
//! A member, a prototype or a parameter is written as a C declaration: text interleaved with
//! one `type` and one `name` element. The text around them holds the decorators: `const` and
//! `*` before the name, an array suffix after it.

use vstd::prelude::*;
use vstd::string::*;
use crate::error::TransError;
use crate::error::TransErrorView;
use crate::parse::generic::GenericItem;
use crate::parse::generic::GenericItemKind;
use crate::parse::generic::GenericItemView;
use crate::repr::Decor;
use crate::text::find_char;
use crate::text::index_of;
use crate::text::str_eq;

verus! {

/// A declaration: a name, the type it is declared with, by name, and the decorators.
pub struct Decl {
    pub base: String,
    pub name: String,
    /// The decorators in the order of the declaration, innermost first.
    pub decors: Vec<Decor>,
    /// The length of the array, where the declaration has an array suffix.
    pub array: Option<String>,
}

/// `Decl` with its strings as character sequences.
pub ghost struct DeclView {
    pub base: Seq<char>,
    pub name: Seq<char>,
    pub decors: Seq<Decor>,
    pub array: Option<Seq<char>>,
}

impl DeepView for Decl {
    type V = DeclView;

    open spec fn deep_view(&self) -> DeclView {
        DeclView {
            base: self.base@,
            name: self.name@,
            decors: self.decors.deep_view(),
            array: self.array.deep_view(),
        }
    }
}

/// Where a scan for decorators stands: the decorators found, whether a `const` waits for its
/// pointer, and where in the text at hand the word being read began.
pub ghost struct Scan {
    pub decors: Seq<Decor>,
    pub pending: bool,
    pub start: int,
}

/// Whether a character can stand in a word of C.
pub open spec fn is_word_char(c: char) -> bool {
    ('a' <= c <= 'z') || ('A' <= c <= 'Z') || ('0' <= c <= '9') || c == '_'
}

/// The scan after the word that ends before `i`: the word `const` is a decorator, and marks
/// the next pointer as one to something `const`.
pub open spec fn close_word(text: Seq<char>, i: int, st: Scan) -> Scan {
    if 0 <= st.start <= i <= text.len() && text.subrange(st.start, i) == "const"@ {
        Scan { decors: st.decors.push(Decor::Const), pending: true, start: st.start }
    } else {
        st
    }
}

/// The scan after a `*`: a pointer, to something `const` if a `const` waited for it.
pub open spec fn star(st: Scan) -> Scan {
    Scan {
        decors: st.decors.push(
            if st.pending {
                Decor::ConstPtr
            } else {
                Decor::MutPtr
            },
        ),
        pending: false,
        start: st.start,
    }
}

/// The scan after the characters of `text` from `i` on.
pub open spec fn spec_scan(text: Seq<char>, i: int, st: Scan) -> Scan
    decreases text.len() - i,
{
    if i < 0 || i >= text.len() {
        close_word(text, text.len() as int, st)
    } else if is_word_char(text[i]) {
        spec_scan(text, i + 1, st)
    } else {
        let closed = close_word(text, i, st);
        let after = if text[i] == '*' {
            star(closed)
        } else {
            closed
        };
        spec_scan(text, i + 1, Scan { start: i + 1, ..after })
    }
}

/// The decorators in the text items from `i` on, after those found so far.
pub open spec fn spec_decors(
    items: Seq<GenericItemView>,
    i: int,
    decors: Seq<Decor>,
    pending: bool,
) -> Seq<Decor>
    decreases items.len() - i,
{
    if i < 0 || i >= items.len() {
        decors
    } else if items[i].kind == GenericItemKind::Text {
        let st = spec_scan(items[i].text, 0, Scan { decors, pending, start: 0 });
        spec_decors(items, i + 1, st.decors, st.pending)
    } else {
        spec_decors(items, i + 1, decors, pending)
    }
}

/// The index of the first item of a kind from `i` on.
pub open spec fn spec_first(items: Seq<GenericItemView>, kind: GenericItemKind, i: int) -> Option<
    int,
>
    decreases items.len() - i,
{
    if i < 0 || i >= items.len() {
        None
    } else if items[i].kind == kind {
        Some(i)
    } else {
        spec_first(items, kind, i + 1)
    }
}

/// What stands between the first `[` of a text and the `]` that follows it, if there is
/// something.
pub open spec fn spec_bracketed(text: Seq<char>) -> Option<Seq<char>> {
    let a = index_of(text, '[');
    if 0 <= a < text.len() {
        let rest = text.subrange(a + 1, text.len() as int);
        let b = index_of(rest, ']');
        if 0 < b < rest.len() {
            Some(rest.subrange(0, b))
        } else {
            None
        }
    } else {
        None
    }
}

/// The array length in the items from `i` on: the text of the first `enum` item, or what the
/// first text item with a bracket holds between its brackets.
pub open spec fn spec_array(items: Seq<GenericItemView>, i: int) -> Option<Seq<char>>
    decreases items.len() - i,
{
    if i < 0 || i >= items.len() {
        None
    } else if items[i].kind == GenericItemKind::Enum {
        Some(items[i].text)
    } else if items[i].kind == GenericItemKind::Text && spec_bracketed(items[i].text) is Some {
        spec_bracketed(items[i].text)
    } else {
        spec_array(items, i + 1)
    }
}

/// The declaration that a list of items spells. It must hold a `type` and a `name` item.
pub open spec fn spec_decl(items: Seq<GenericItemView>) -> Result<DeclView, TransErrorView> {
    match (
        spec_first(items, GenericItemKind::Type, 0),
        spec_first(items, GenericItemKind::Name, 0),
    ) {
        (Some(t), Some(n)) => Ok(
            DeclView {
                base: items[t].text,
                name: items[n].text,
                decors: spec_decors(items, 0, Seq::empty(), false),
                array: spec_array(items, n + 1),
            },
        ),
        _ => Err(TransErrorView::BadType),
    }
}

/// Whether a character can stand in a word of C.
fn word_char(c: char) -> (r: bool)
    ensures
        r == is_word_char(c),
{
    ('a' <= c && c <= 'z') || ('A' <= c && c <= 'Z') || ('0' <= c && c <= '9') || c == '_'
}

/// Notes the word of `text` that ends before `i`.
fn note_word(text: &str, start: usize, i: usize, decors: &mut Vec<Decor>, pending: &mut bool)
    requires
        start <= i <= text@.len(),
    ensures
        (Scan { decors: final(decors)@, pending: *final(pending), start: start as int })
            == close_word(
            text@,
            i as int,
            Scan { decors: old(decors)@, pending: *old(pending), start: start as int },
        ),
{
    if i - start == 5 && str_eq(text.substring_char(start, i), "const") {
        decors.push(Decor::Const);
        *pending = true;
    } else {
        proof {
            reveal_strlit("const");
            if text@.subrange(start as int, i as int) == "const"@ {
                assert(text@.subrange(start as int, i as int).len() == 5);
            }
        }
    }
}

/// Scans one run of text for decorators.
fn scan_text(text: &str, decors: &mut Vec<Decor>, pending: &mut bool)
    ensures
        final(decors)@ == spec_scan(
            text@,
            0,
            Scan { decors: old(decors)@, pending: *old(pending), start: 0 },
        ).decors,
        *final(pending) == spec_scan(
            text@,
            0,
            Scan { decors: old(decors)@, pending: *old(pending), start: 0 },
        ).pending,
{
    let n = text.unicode_len();
    let mut i: usize = 0;
    let mut start: usize = 0;
    let ghost goal = spec_scan(
        text@,
        0,
        Scan { decors: old(decors)@, pending: *old(pending), start: 0 },
    );
    while i < n
        invariant
            n == text@.len(),
            start <= i <= n,
            spec_scan(
                text@,
                i as int,
                Scan { decors: decors@, pending: *pending, start: start as int },
            ) == goal,
        decreases n - i,
    {
        let c = text.get_char(i);
        if !word_char(c) {
            note_word(text, start, i, decors, pending);
            if c == '*' {
                if *pending {
                    decors.push(Decor::ConstPtr);
                } else {
                    decors.push(Decor::MutPtr);
                }
                *pending = false;
            }
            start = i + 1;
        }
        i += 1;
    }
    note_word(text, start, n, decors, pending);
}

/// Finds the first item of a kind from `i` on.
fn first_of(items: &Vec<GenericItem>, kind: GenericItemKind, i: usize) -> (r: Option<usize>)
    ensures
        match r {
            Some(k) => spec_first(items.deep_view(), kind, i as int) == Some(k as int) && k
                < items.len(),
            None => spec_first(items.deep_view(), kind, i as int) is None,
        },
{
    let mut k: usize = i;
    while k < items.len()
        invariant
            spec_first(items.deep_view(), kind, k as int) == spec_first(
                items.deep_view(),
                kind,
                i as int,
            ),
        decreases items.len() - k,
    {
        if items[k].kind == kind {
            return Some(k);
        }
        k += 1;
    }
    None
}

/// Reads what stands between the brackets of an array suffix.
fn bracketed(text: &str) -> (r: Option<String>)
    ensures
        r.deep_view() == spec_bracketed(text@),
{
    let n = text.unicode_len();
    let a = find_char(text, '[');
    if a < n {
        let rest = text.substring_char(a + 1, n);
        let b = find_char(rest, ']');
        if 0 < b && b < rest.unicode_len() {
            Some(String::from_str(rest.substring_char(0, b)))
        } else {
            None
        }
    } else {
        None
    }
}

/// Reads the array length from the items after the name.
fn array_of(items: &Vec<GenericItem>, i: usize) -> (r: Option<String>)
    ensures
        r.deep_view() == spec_array(items.deep_view(), i as int),
{
    let mut k: usize = i;
    while k < items.len()
        invariant
            spec_array(items.deep_view(), k as int) == spec_array(items.deep_view(), i as int),
        decreases items.len() - k,
    {
        if items[k].kind == GenericItemKind::Enum {
            return Some(items[k].text.clone());
        }
        if items[k].kind == GenericItemKind::Text {
            match bracketed(items[k].text.as_str()) {
                Some(len) => {
                    return Some(len);
                },
                None => {},
            }
        }
        k += 1;
    }
    None
}

impl Decl {
    /// Reads the declaration that a list of items spells.
    pub fn from_items(items: &Vec<GenericItem>) -> (r: Result<Decl, TransError>)
        ensures
            match r {
                Ok(d) => spec_decl(items.deep_view()) == Ok::<DeclView, TransErrorView>(
                    d.deep_view(),
                ),
                Err(e) => spec_decl(items.deep_view()) == Err::<DeclView, TransErrorView>(
                    e.deep_view(),
                ),
            },
    {
        let t = match first_of(items, GenericItemKind::Type, 0) {
            Some(t) => t,
            None => {
                return Err(TransError::BadType);
            },
        };
        let n = match first_of(items, GenericItemKind::Name, 0) {
            Some(n) => n,
            None => {
                return Err(TransError::BadType);
            },
        };
        let mut decors: Vec<Decor> = Vec::new();
        let mut pending = false;
        let mut i: usize = 0;
        let ghost views = items.deep_view();
        while i < items.len()
            invariant
                views == items.deep_view(),
                spec_decors(views, i as int, decors@, pending) == spec_decors(
                    views,
                    0,
                    Seq::empty(),
                    false,
                ),
            decreases items.len() - i,
        {
            if items[i].kind == GenericItemKind::Text {
                scan_text(items[i].text.as_str(), &mut decors, &mut pending);
            }
            i += 1;
        }
        let array = array_of(items, n + 1);
        proof {
            assert(decors.deep_view() =~= decors@);
        }
        Ok(Decl { base: items[t].text.clone(), name: items[n].text.clone(), decors, array })
    }
}

} // verus!
