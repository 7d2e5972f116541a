//! The values that attributes hold besides plain text.

use vstd::prelude::*;
use vstd::string::*;
use crate::attribs::FromText;
use crate::attribs::parse_list;
use crate::attribs::spec_parse_list;
use crate::text::alphabetic;
use crate::text::starts_alphabetic;
use crate::text::str_eq;

verus! {

/// The kind of limit that a member of a limits structure states.
#[derive(Debug, Clone, Copy, PartialEq, Eq, Structural)]
pub enum LimitType {
    NoAuto,
    Struct,
    Range,
    Exact,
    Pot,
    Min,
    Max,
    Mul,
    Bitmask,
    Bits,
    Not,
}

impl DeepView for LimitType {
    type V = LimitType;

    open spec fn deep_view(&self) -> LimitType {
        *self
    }
}

impl FromText for LimitType {
    open spec fn spec_from_str(s: Seq<char>) -> Option<LimitType> {
        if s == "noauto"@ {
            Some(LimitType::NoAuto)
        } else if s == "struct"@ {
            Some(LimitType::Struct)
        } else if s == "range"@ {
            Some(LimitType::Range)
        } else if s == "exact"@ {
            Some(LimitType::Exact)
        } else if s == "pot"@ {
            Some(LimitType::Pot)
        } else if s == "min"@ {
            Some(LimitType::Min)
        } else if s == "max"@ {
            Some(LimitType::Max)
        } else if s == "mul"@ {
            Some(LimitType::Mul)
        } else if s == "bitmask"@ {
            Some(LimitType::Bitmask)
        } else if s == "bits"@ {
            Some(LimitType::Bits)
        } else if s == "not"@ {
            Some(LimitType::Not)
        } else {
            None
        }
    }

    fn from_str(s: &str) -> (r: Result<LimitType, ()>) {
        if str_eq(s, "noauto") {
            Ok(LimitType::NoAuto)
        } else if str_eq(s, "struct") {
            Ok(LimitType::Struct)
        } else if str_eq(s, "range") {
            Ok(LimitType::Range)
        } else if str_eq(s, "exact") {
            Ok(LimitType::Exact)
        } else if str_eq(s, "pot") {
            Ok(LimitType::Pot)
        } else if str_eq(s, "min") {
            Ok(LimitType::Min)
        } else if str_eq(s, "max") {
            Ok(LimitType::Max)
        } else if str_eq(s, "mul") {
            Ok(LimitType::Mul)
        } else if str_eq(s, "bitmask") {
            Ok(LimitType::Bitmask)
        } else if str_eq(s, "bits") {
            Ok(LimitType::Bits)
        } else if str_eq(s, "not") {
            Ok(LimitType::Not)
        } else {
            Err(())
        }
    }
}

impl LimitType {
    /// What a `limittype` attribute holds: nothing where the attribute is absent, else the
    /// limit kinds of its comma-separated list.
    pub open spec fn spec_from_attrib(limit_type: Option<Seq<char>>) -> Result<
        Option<Seq<LimitType>>,
        Seq<char>,
    > {
        match limit_type {
            None => Ok(None),
            Some(v) => match spec_parse_list::<LimitType>(v) {
                Some(list) => Ok(Some(list)),
                None => Err(v),
            },
        }
    }

    /// Reads a `limittype` attribute. A list with a piece that names no limit kind is handed
    /// back as the error.
    pub fn from_attrib(limit_type: Option<String>) -> (r: Result<Option<Vec<LimitType>>, String>)
        ensures
            match r {
                Ok(list) => Self::spec_from_attrib(limit_type.deep_view()) == Ok::<
                    Option<Seq<LimitType>>,
                    Seq<char>,
                >(list.deep_view()),
                Err(v) => Self::spec_from_attrib(limit_type.deep_view()) == Err::<
                    Option<Seq<LimitType>>,
                    Seq<char>,
                >(v@),
            },
    {
        match limit_type {
            None => Ok(None),
            Some(value) => match parse_list::<LimitType>(value.as_str()) {
                Some(list) => Ok(Some(list)),
                None => Err(value),
            },
        }
    }
}

/// How the length of an array behind a pointer is given.
#[derive(Debug)]
pub enum Len {
    /// The array ends with a zero.
    NullTerminated,
    /// The length is held by the named member or parameter.
    Member(String),
    /// The length is a number or an expression.
    Number(String),
    /// A length with its alternative spelling: `len`, `altlen`.
    Alt(String, String),
}

/// `Len` with its strings as character sequences.
pub ghost enum LenView {
    NullTerminated,
    Member(Seq<char>),
    Number(Seq<char>),
    Alt(Seq<char>, Seq<char>),
}

impl DeepView for Len {
    type V = LenView;

    open spec fn deep_view(&self) -> LenView {
        match *self {
            Len::NullTerminated => LenView::NullTerminated,
            Len::Member(s) => LenView::Member(s@),
            Len::Number(s) => LenView::Number(s@),
            Len::Alt(a, b) => LenView::Alt(a@, b@),
        }
    }
}

impl FromText for Len {
    open spec fn spec_from_str(s: Seq<char>) -> Option<LenView> {
        if s == "null-terminated"@ {
            Some(LenView::NullTerminated)
        } else if s.len() > 0 && alphabetic(s[0]) {
            Some(LenView::Member(s))
        } else {
            Some(LenView::Number(s))
        }
    }

    fn from_str(s: &str) -> (r: Result<Len, ()>) {
        if str_eq(s, "null-terminated") {
            Ok(Len::NullTerminated)
        } else if starts_alphabetic(s) {
            Ok(Len::Member(String::from_str(s)))
        } else {
            Ok(Len::Number(String::from_str(s)))
        }
    }
}

impl Len {
    /// What the attributes `len` and `altlen` hold together. Without `len` there is no length;
    /// with both, the pair is kept as it is written; with `len` alone, each piece of its
    /// comma-separated list is a length.
    pub open spec fn spec_from_attribs(
        len: Option<Seq<char>>,
        alt_len: Option<Seq<char>>,
    ) -> Option<
        Seq<LenView>,
    > {
        match len {
            None => None,
            Some(len) => match alt_len {
                Some(alt_len) => Some(seq![LenView::Alt(len, alt_len)]),
                None => spec_parse_list::<Len>(len),
            },
        }
    }

    /// Reads the attributes `len` and `altlen`.
    pub fn from_attribs(len: Option<String>, alt_len: Option<String>) -> (r: Option<Vec<Len>>)
        ensures
            r.deep_view() == Self::spec_from_attribs(len.deep_view(), alt_len.deep_view()),
    {
        match len {
            None => None,
            Some(len) => match alt_len {
                Some(alt_len) => {
                    let mut list: Vec<Len> = Vec::new();
                    let ghost first = LenView::Alt(len@, alt_len@);
                    list.push(Len::Alt(len, alt_len));
                    proof {
                        assert(list.deep_view() =~= seq![first]);
                    }
                    Some(list)
                },
                None => parse_list::<Len>(len.as_str()),
            },
        }
    }
}

/// What a block of enumerants holds.
#[derive(Debug, Clone, Copy, PartialEq, Eq, Structural)]
pub enum EnumsType {
    Constants,
    Enum,
    Bitmask,
}

impl DeepView for EnumsType {
    type V = EnumsType;

    open spec fn deep_view(&self) -> EnumsType {
        *self
    }
}

impl FromText for EnumsType {
    open spec fn spec_from_str(s: Seq<char>) -> Option<EnumsType> {
        if s == "constants"@ {
            Some(EnumsType::Constants)
        } else if s == "enum"@ {
            Some(EnumsType::Enum)
        } else if s == "bitmask"@ {
            Some(EnumsType::Bitmask)
        } else {
            None
        }
    }

    fn from_str(s: &str) -> (r: Result<EnumsType, ()>) {
        if str_eq(s, "constants") {
            Ok(EnumsType::Constants)
        } else if str_eq(s, "enum") {
            Ok(EnumsType::Enum)
        } else if str_eq(s, "bitmask") {
            Ok(EnumsType::Bitmask)
        } else {
            Err(())
        }
    }
}

/// Whether, and through which field, a parameter must be externally synchronised.
#[derive(Debug)]
pub enum ExternSync {
    False,
    True,
    Field(String),
}

/// An `ExternSync` with its string as a character sequence.
pub ghost enum ExternSyncView {
    False,
    True,
    Field(Seq<char>),
}

impl DeepView for ExternSync {
    type V = ExternSyncView;

    open spec fn deep_view(&self) -> ExternSyncView {
        match *self {
            ExternSync::False => ExternSyncView::False,
            ExternSync::True => ExternSyncView::True,
            ExternSync::Field(s) => ExternSyncView::Field(s@),
        }
    }
}

impl FromText for ExternSync {
    open spec fn spec_from_str(s: Seq<char>) -> Option<ExternSyncView> {
        if s == "false"@ {
            Some(ExternSyncView::False)
        } else if s == "true"@ {
            Some(ExternSyncView::True)
        } else {
            Some(ExternSyncView::Field(s))
        }
    }

    fn from_str(s: &str) -> (r: Result<ExternSync, ()>) {
        if str_eq(s, "false") {
            Ok(ExternSync::False)
        } else if str_eq(s, "true") {
            Ok(ExternSync::True)
        } else {
            Ok(ExternSync::Field(String::from_str(s)))
        }
    }
}

/// The direction in which an extension enumerant's offset counts.
#[derive(Debug, Clone, Copy, PartialEq, Eq, Structural)]
pub enum Dir {
    Pos,
    Neg,
}

impl DeepView for Dir {
    type V = Dir;

    open spec fn deep_view(&self) -> Dir {
        *self
    }
}

impl FromText for Dir {
    open spec fn spec_from_str(s: Seq<char>) -> Option<Dir> {
        if s == "+"@ {
            Some(Dir::Pos)
        } else if s == "-"@ {
            Some(Dir::Neg)
        } else {
            None
        }
    }

    fn from_str(s: &str) -> (r: Result<Dir, ()>) {
        if str_eq(s, "+") {
            Ok(Dir::Pos)
        } else if str_eq(s, "-") {
            Ok(Dir::Neg)
        } else {
            Err(())
        }
    }
}

} // verus!
