//! Identifiers of the target language.

use vstd::prelude::*;
use vstd::string::*;
use crate::text::str_eq;

verus! {

/// Whether a character can begin an identifier.
pub open spec fn is_ident_start(c: char) -> bool {
    ('a' <= c <= 'z') || ('A' <= c <= 'Z') || c == '_'
}

/// Whether a character can stand in an identifier.
pub open spec fn is_ident_char(c: char) -> bool {
    is_ident_start(c) || ('0' <= c <= '9')
}

/// Whether a name has the shape of an identifier: a letter or an underscore, then letters,
/// digits and underscores; a lone underscore is none.
pub open spec fn is_ident_shape(name: Seq<char>) -> bool {
    &&& name.len() > 0
    &&& is_ident_start(name[0])
    &&& forall|i: int| 0 <= i < name.len() ==> is_ident_char(#[trigger] name[i])
    &&& name != seq!['_']
}

/// Whether a name is a keyword that can be written as a raw identifier.
pub open spec fn is_keyword(name: Seq<char>) -> bool {
    name == "as"@ || name == "async"@ || name == "await"@ || name == "break"@ || name == "const"@
        || name == "continue"@ || name == "dyn"@ || name == "else"@ || name == "enum"@ || name
        == "extern"@ || name == "false"@ || name == "fn"@ || name == "for"@ || name == "if"@
        || name == "impl"@ || name == "in"@ || name == "let"@ || name == "loop"@ || name
        == "match"@ || name == "mod"@ || name == "move"@ || name == "mut"@ || name == "pub"@
        || name == "ref"@ || name == "return"@ || name == "static"@ || name == "struct"@ || name
        == "trait"@ || name == "true"@ || name == "type"@ || name == "unsafe"@ || name == "use"@
        || name == "where"@ || name == "while"@
}

/// Whether a name is a keyword that cannot be written as an identifier at all.
pub open spec fn is_reserved(name: Seq<char>) -> bool {
    name == "self"@ || name == "Self"@ || name == "super"@ || name == "crate"@
}

/// The identifier for a name: the name itself, written raw where it is a keyword. There is
/// none for a name that has not the shape of an identifier or that is reserved.
pub open spec fn spec_ident(name: Seq<char>) -> Option<Seq<char>> {
    if !is_ident_shape(name) || is_reserved(name) {
        None
    } else if is_keyword(name) {
        Some("r#"@ + name)
    } else {
        Some(name)
    }
}

/// Whether a name has the shape of an identifier.
pub fn ident_shape(name: &str) -> (r: bool)
    ensures
        r == is_ident_shape(name@),
{
    let n = name.unicode_len();
    if n == 0 {
        return false;
    }
    let first = name.get_char(0);
    if !(('a' <= first && first <= 'z') || ('A' <= first && first <= 'Z') || first == '_') {
        return false;
    }
    if n == 1 && first == '_' {
        proof {
            assert(name@ =~= seq!['_']);
        }
        return false;
    }
    let mut i: usize = 0;
    while i < n
        invariant
            n == name@.len(),
            i <= n,
            forall|j: int| 0 <= j < i ==> is_ident_char(#[trigger] name@[j]),
        decreases n - i,
    {
        let c = name.get_char(i);
        if !(('a' <= c && c <= 'z') || ('A' <= c && c <= 'Z') || c == '_' || ('0' <= c && c
            <= '9')) {
            return false;
        }
        i += 1;
    }
    proof {
        if name@ == seq!['_'] {
            assert(seq!['_'].len() == 1);
        }
    }
    true
}

/// Whether a name is a keyword that can be written as a raw identifier.
pub fn keyword(name: &str) -> (r: bool)
    ensures
        r == is_keyword(name@),
{
    str_eq(name, "as") || str_eq(name, "async") || str_eq(name, "await") || str_eq(name, "break")
        || str_eq(name, "const") || str_eq(name, "continue") || str_eq(name, "dyn") || str_eq(
        name,
        "else",
    ) || str_eq(name, "enum") || str_eq(name, "extern") || str_eq(name, "false") || str_eq(
        name,
        "fn",
    ) || str_eq(name, "for") || str_eq(name, "if") || str_eq(name, "impl") || str_eq(name, "in")
        || str_eq(name, "let") || str_eq(name, "loop") || str_eq(name, "match") || str_eq(
        name,
        "mod",
    ) || str_eq(name, "move") || str_eq(name, "mut") || str_eq(name, "pub") || str_eq(name, "ref")
        || str_eq(name, "return") || str_eq(name, "static") || str_eq(name, "struct") || str_eq(
        name,
        "trait",
    ) || str_eq(name, "true") || str_eq(name, "type") || str_eq(name, "unsafe") || str_eq(
        name,
        "use",
    ) || str_eq(name, "where") || str_eq(name, "while")
}

/// Whether a name is a keyword that cannot be written as an identifier at all.
pub fn reserved(name: &str) -> (r: bool)
    ensures
        r == is_reserved(name@),
{
    str_eq(name, "self") || str_eq(name, "Self") || str_eq(name, "super") || str_eq(name, "crate")
}

/// Makes the identifier for a name.
pub fn ident(name: &str) -> (r: Option<String>)
    ensures
        r.deep_view() == spec_ident(name@),
{
    if !ident_shape(name) || reserved(name) {
        None
    } else if keyword(name) {
        let mut r = String::from_str("r#");
        r.append(name);
        Some(r)
    } else {
        Some(String::from_str(name))
    }
}

} // verus!
