//! The `enums` elements: blocks of enumerants.
//!
//! An enumerant is a constant, a value, a bit or an alias, told apart by its attributes.

use vstd::prelude::*;
use vstd::string::*;
use crate::attribs::Attribs;
use crate::attribs::AttribsView;
use crate::attribs::attr_get;
use crate::attribs::spec_req;
use crate::attribs::spec_take;
use crate::attribs::spec_try_get;
use crate::error::ParseError;
use crate::error::ParseErrorView;
use crate::parse::protocol::GenericParse;
use crate::parse::protocol::Parse;
use crate::parse::protocol::Reader;
use crate::parse::protocol::ReaderView;
use crate::parse::protocol::add_item;
use crate::parse::protocol::map_read;
use crate::parse::protocol::no_items;
use crate::parse::registry::Comment;
use crate::parse::registry::CommentView;
use crate::parse::values::EnumsType;
use crate::repr::Deprecation;
use crate::text::str_eq;

verus! {

/// An `enums` element: a block of enumerants.
pub struct Enums {
    pub name: String,
    pub ty: EnumsType,
    pub bit_width: Option<String>,
    pub contents: Vec<EnumsItem>,
    pub comment: Option<String>,
}

/// `Enums` with its strings as character sequences.
pub ghost struct EnumsView {
    pub name: Seq<char>,
    pub ty: EnumsType,
    pub bit_width: Option<Seq<char>>,
    pub contents: Seq<EnumsItemView>,
    pub comment: Option<Seq<char>>,
}

impl DeepView for Enums {
    type V = EnumsView;

    open spec fn deep_view(&self) -> EnumsView {
        EnumsView {
            name: self.name.deep_view(),
            ty: self.ty.deep_view(),
            bit_width: self.bit_width.deep_view(),
            contents: self.contents.deep_view(),
            comment: self.comment.deep_view(),
        }
    }
}

impl GenericParse for Enums {
    open spec fn spec_name() -> Seq<char> {
        "enums"@
    }

    open spec fn spec_empty() -> EnumsView {
        EnumsView {
            name: Seq::empty(),
            ty: EnumsType::Constants,
            bit_width: None,
            contents: Seq::empty(),
            comment: None,
        }
    }

    open spec fn spec_attribs(acc: EnumsView, element: Seq<char>, attribs: AttribsView) -> Result<
        (EnumsView, AttribsView),
        ParseErrorView,
    > {
        match spec_req(attribs, element, "name"@) {
            Err(e) => Err(e),
            Ok((name, a)) => {
                match spec_try_get::<EnumsType>(a, element, "type"@) {
                    Err(e) => Err(e),
                    Ok((ty, a)) => {
                        let ty = match ty {
                            Some(v) => v,
                            None => EnumsType::Constants,
                        };
                        let (bit_width, a) = spec_take(a, "bitwidth"@);
                        let (comment, a) = spec_take(a, "comment"@);
                        Ok((EnumsView { name, ty, bit_width, comment, ..acc }, a))
                    },
                }
            },
        }
    }

    open spec fn spec_child(
        acc: EnumsView,
        reader: ReaderView,
        element: Seq<char>,
        attribs: AttribsView,
    ) -> (Result<EnumsView, ParseErrorView>, ReaderView) {
        map_read(
            EnumsItem::spec_read(reader, element, attribs),
            |item: EnumsItemView| EnumsView { contents: acc.contents.push(item), ..acc },
        )
    }

    open spec fn spec_text(acc: EnumsView, text: Seq<char>) -> Result<EnumsView, ParseErrorView> {
        Err(ParseErrorView::BadContent(Self::spec_name(), text))
    }

    fn name() -> &'static str {
        "enums"
    }

    fn empty() -> Enums {
        Enums {
            name: String::new(),
            ty: EnumsType::Constants,
            bit_width: None,
            contents: no_items(),
            comment: None,
        }
    }

    fn parse_attribs(&mut self, element: &str, attribs: &mut Attribs) -> (r: Result<
        (),
        ParseError,
    >) {
        self.name = attribs.req_attrib(element, "name")?;
        self.ty = match attribs.try_get::<EnumsType>(element, "type")? {
            Some(v) => v,
            None => EnumsType::Constants,
        };
        self.bit_width = attribs.remove("bitwidth");
        self.comment = attribs.remove("comment");
        Ok(())
    }

    fn parse_child(
        &mut self,
        reader: &mut Reader,
        element: String,
        attribs: &mut Attribs,
    ) -> (r: Result<(), ParseError>) {
        let item = EnumsItem::parse(reader, element, attribs)?;
        add_item(&mut self.contents, item);
        Ok(())
    }

    fn parse_text(&mut self, text: String) -> (r: Result<(), ParseError>) {
        Err(ParseError::BadContent(String::from_str("enums"), text))
    }
}

/// A child of an `enums` element.
pub enum EnumsItem {
    Comment(Comment),
    Enum(Enum),
    Unused(Unused),
}

/// `EnumsItem` with its strings as character sequences.
pub ghost enum EnumsItemView {
    Comment(CommentView),
    Enum(EnumView),
    Unused(UnusedView),
}

impl DeepView for EnumsItem {
    type V = EnumsItemView;

    open spec fn deep_view(&self) -> EnumsItemView {
        match *self {
            EnumsItem::Comment(x) => EnumsItemView::Comment(x.deep_view()),
            EnumsItem::Enum(x) => EnumsItemView::Enum(x.deep_view()),
            EnumsItem::Unused(x) => EnumsItemView::Unused(x.deep_view()),
        }
    }
}

impl Parse for EnumsItem {
    open spec fn spec_read(reader: ReaderView, element: Seq<char>, attribs: AttribsView) -> (
        Result<EnumsItemView, ParseErrorView>,
        ReaderView,
    ) {
        if element == "comment"@ {
            map_read(
                Comment::spec_read(reader, element, attribs),
                |x: CommentView| EnumsItemView::Comment(x),
            )
        } else if element == "enum"@ {
            map_read(
                Enum::spec_read(reader, element, attribs),
                |x: EnumView| EnumsItemView::Enum(x),
            )
        } else if element == "unused"@ {
            map_read(
                Unused::spec_read(reader, element, attribs),
                |x: UnusedView| EnumsItemView::Unused(x),
            )
        } else {
            (Err(ParseErrorView::BadChild("enums"@, element)), reader)
        }
    }

    fn parse(reader: &mut Reader, element: String, attribs: &mut Attribs) -> (r: Result<
        EnumsItem,
        ParseError,
    >) {
        if str_eq(element.as_str(), "comment") {
            Ok(EnumsItem::Comment(Comment::parse(reader, element, attribs)?))
        } else if str_eq(element.as_str(), "enum") {
            Ok(EnumsItem::Enum(Enum::parse(reader, element, attribs)?))
        } else if str_eq(element.as_str(), "unused") {
            Ok(EnumsItem::Unused(Unused::parse(reader, element, attribs)?))
        } else {
            Err(ParseError::BadChild(String::from_str("enums"), element))
        }
    }
}

/// An enumerant: what all kinds share, and what its kind adds.
pub struct Enum {
    pub common: EnumCommon,
    pub details: EnumDetails,
}

/// `Enum` with its strings as character sequences.
pub ghost struct EnumView {
    pub common: EnumCommonView,
    pub details: EnumDetailsView,
}

impl DeepView for Enum {
    type V = EnumView;

    open spec fn deep_view(&self) -> EnumView {
        EnumView { common: self.common.deep_view(), details: self.details.deep_view() }
    }
}

/// What an enumerant holds besides the common part, by kind.
pub enum EnumDetails {
    Alias(AliasEnumDetails),
    Bit(BitDetails),
    Constant(ConstantDetails),
    Value(ValueDetails),
}

/// `EnumDetails` with its strings as character sequences.
pub ghost enum EnumDetailsView {
    Alias(AliasEnumDetailsView),
    Bit(BitDetailsView),
    Constant(ConstantDetailsView),
    Value(ValueDetailsView),
}

impl DeepView for EnumDetails {
    type V = EnumDetailsView;

    open spec fn deep_view(&self) -> EnumDetailsView {
        match *self {
            EnumDetails::Alias(x) => EnumDetailsView::Alias(x.deep_view()),
            EnumDetails::Bit(x) => EnumDetailsView::Bit(x.deep_view()),
            EnumDetails::Constant(x) => EnumDetailsView::Constant(x.deep_view()),
            EnumDetails::Value(x) => EnumDetailsView::Value(x.deep_view()),
        }
    }
}

impl Parse for Enum {
    open spec fn spec_read(reader: ReaderView, element: Seq<char>, attribs: AttribsView) -> (
        Result<EnumView, ParseErrorView>,
        ReaderView,
    ) {
        if attr_get(attribs, "alias"@) is Some {
            map_read(
                AliasEnum::spec_read(reader, element, attribs),
                |x: AliasEnumView|
                    EnumView { common: x.common, details: EnumDetailsView::Alias(x.details) },
            )
        } else if attr_get(attribs, "bitpos"@) is Some {
            map_read(
                BitEnum::spec_read(reader, element, attribs),
                |x: BitEnumView|
                    EnumView { common: x.common, details: EnumDetailsView::Bit(x.details) },
            )
        } else if attr_get(attribs, "type"@) is Some {
            map_read(
                ConstantEnum::spec_read(reader, element, attribs),
                |x: ConstantEnumView|
                    EnumView { common: x.common, details: EnumDetailsView::Constant(x.details) },
            )
        } else {
            map_read(
                ValueEnum::spec_read(reader, element, attribs),
                |x: ValueEnumView|
                    EnumView { common: x.common, details: EnumDetailsView::Value(x.details) },
            )
        }
    }

    fn parse(reader: &mut Reader, element: String, attribs: &mut Attribs) -> (r: Result<
        Enum,
        ParseError,
    >) {
        if attribs.contains_key("alias") {
            Ok(AliasEnum::parse(reader, element, attribs)?.into_enum())
        } else if attribs.contains_key("bitpos") {
            Ok(BitEnum::parse(reader, element, attribs)?.into_enum())
        } else if attribs.contains_key("type") {
            Ok(ConstantEnum::parse(reader, element, attribs)?.into_enum())
        } else {
            Ok(ValueEnum::parse(reader, element, attribs)?.into_enum())
        }
    }
}

impl AliasEnum {
    /// This element as an `Enum`.
    pub fn into_enum(self) -> (r: Enum)
        ensures
            r == (Enum { common: self.common, details: EnumDetails::Alias(self.details) }),
    {
        let AliasEnum { common, details } = self;
        Enum { common, details: EnumDetails::Alias(details) }
    }
}

impl BitEnum {
    /// This element as an `Enum`.
    pub fn into_enum(self) -> (r: Enum)
        ensures
            r == (Enum { common: self.common, details: EnumDetails::Bit(self.details) }),
    {
        let BitEnum { common, details } = self;
        Enum { common, details: EnumDetails::Bit(details) }
    }
}

impl ConstantEnum {
    /// This element as an `Enum`.
    pub fn into_enum(self) -> (r: Enum)
        ensures
            r == (Enum { common: self.common, details: EnumDetails::Constant(self.details) }),
    {
        let ConstantEnum { common, details } = self;
        Enum { common, details: EnumDetails::Constant(details) }
    }
}

impl ValueEnum {
    /// This element as an `Enum`.
    pub fn into_enum(self) -> (r: Enum)
        ensures
            r == (Enum { common: self.common, details: EnumDetails::Value(self.details) }),
    {
        let ValueEnum { common, details } = self;
        Enum { common, details: EnumDetails::Value(details) }
    }
}

/// What every enumerant holds.
pub struct EnumCommon {
    pub name: String,
    pub api: Option<String>,
    pub deprecated: Option<Deprecation>,
    pub comment: Option<String>,
}

/// `EnumCommon` with its strings as character sequences.
pub ghost struct EnumCommonView {
    pub name: Seq<char>,
    pub api: Option<Seq<char>>,
    pub deprecated: Option<Deprecation>,
    pub comment: Option<Seq<char>>,
}

impl DeepView for EnumCommon {
    type V = EnumCommonView;

    open spec fn deep_view(&self) -> EnumCommonView {
        EnumCommonView {
            name: self.name.deep_view(),
            api: self.api.deep_view(),
            deprecated: self.deprecated.deep_view(),
            comment: self.comment.deep_view(),
        }
    }
}

impl EnumCommon {
    /// The value before anything is read.
    pub open spec fn spec_empty() -> EnumCommonView {
        EnumCommonView {
            name: Seq::empty(),
            api: None,
            deprecated: None,
            comment: None,
        }
    }

    /// An empty value, to be filled in by the parser.
    pub fn empty() -> (r: EnumCommon)
        ensures
            r.deep_view() == Self::spec_empty(),
    {
        EnumCommon {
            name: String::new(),
            api: None,
            deprecated: None,
            comment: None,
        }
    }

    /// The value and the attribute map after the attributes of this part have been taken.
    pub open spec fn spec_attribs(
        acc: EnumCommonView,
        element: Seq<char>,
        attribs: AttribsView,
    ) -> Result<
        (EnumCommonView, AttribsView),
        ParseErrorView,
    > {
        match spec_req(attribs, element, "name"@) {
            Err(e) => Err(e),
            Ok((name, a)) => {
                let (api, a) = spec_take(a, "api"@);
                match spec_try_get::<Deprecation>(a, element, "deprecated"@) {
                    Err(e) => Err(e),
                    Ok((deprecated, a)) => {
                        let (comment, a) = spec_take(a, "comment"@);
                        Ok((EnumCommonView { name, api, deprecated, comment }, a))
                    },
                }
            },
        }
    }

    /// Takes the attributes of this part from the map.
    pub fn parse_attribs(&mut self, element: &str, attribs: &mut Attribs) -> (r: Result<
        (),
        ParseError,
    >)
        ensures
            match Self::spec_attribs(old(self).deep_view(), element@, old(attribs).deep_view()) {
                Ok((acc, rest)) => r is Ok && final(self).deep_view() == acc
                    && final(attribs).deep_view() == rest,
                Err(e) => r is Err && r->Err_0.deep_view() == e,
            },
    {
        self.name = attribs.req_attrib(element, "name")?;
        self.api = attribs.remove("api");
        self.deprecated = attribs.try_get::<Deprecation>(element, "deprecated")?;
        self.comment = attribs.remove("comment");
        Ok(())
    }
}

/// An enumerant that is a typed constant.
pub struct ConstantEnum {
    pub common: EnumCommon,
    pub details: ConstantDetails,
}

/// `ConstantEnum` with its strings as character sequences.
pub ghost struct ConstantEnumView {
    pub common: EnumCommonView,
    pub details: ConstantDetailsView,
}

impl DeepView for ConstantEnum {
    type V = ConstantEnumView;

    open spec fn deep_view(&self) -> ConstantEnumView {
        ConstantEnumView {
            common: self.common.deep_view(),
            details: self.details.deep_view(),
        }
    }
}

impl GenericParse for ConstantEnum {
    open spec fn spec_name() -> Seq<char> {
        "enum"@
    }

    open spec fn spec_empty() -> ConstantEnumView {
        ConstantEnumView {
            common: EnumCommon::spec_empty(),
            details: ConstantDetails::spec_empty(),
        }
    }

    open spec fn spec_attribs(
        acc: ConstantEnumView,
        element: Seq<char>,
        attribs: AttribsView,
    ) -> Result<
        (ConstantEnumView, AttribsView),
        ParseErrorView,
    > {
        match EnumCommon::spec_attribs(acc.common, element, attribs) {
            Err(e) => Err(e),
            Ok((common, a)) => {
                match ConstantDetails::spec_attribs(acc.details, element, a) {
                    Err(e) => Err(e),
                    Ok((details, a)) => {
                        Ok((ConstantEnumView { common, details }, a))
                    },
                }
            },
        }
    }

    open spec fn spec_child(
        acc: ConstantEnumView,
        reader: ReaderView,
        element: Seq<char>,
        attribs: AttribsView,
    ) -> (Result<ConstantEnumView, ParseErrorView>, ReaderView) {
        (Err(ParseErrorView::BadChild(Self::spec_name(), element)), reader)
    }

    open spec fn spec_text(
        acc: ConstantEnumView,
        text: Seq<char>,
    ) -> Result<ConstantEnumView, ParseErrorView> {
        Err(ParseErrorView::BadContent(Self::spec_name(), text))
    }

    fn name() -> &'static str {
        "enum"
    }

    fn empty() -> ConstantEnum {
        ConstantEnum {
            common: EnumCommon::empty(),
            details: ConstantDetails::empty(),
        }
    }

    fn parse_attribs(&mut self, element: &str, attribs: &mut Attribs) -> (r: Result<
        (),
        ParseError,
    >) {
        self.common.parse_attribs(element, attribs)?;
        self.details.parse_attribs(element, attribs)?;
        Ok(())
    }

    fn parse_child(
        &mut self,
        reader: &mut Reader,
        element: String,
        attribs: &mut Attribs,
    ) -> (r: Result<(), ParseError>) {
        Err(ParseError::BadChild(String::from_str("enum"), element))
    }

    fn parse_text(&mut self, text: String) -> (r: Result<(), ParseError>) {
        Err(ParseError::BadContent(String::from_str("enum"), text))
    }
}

/// The value and the C type of a constant.
pub struct ConstantDetails {
    pub value: String,
    pub ty: String,
}

/// `ConstantDetails` with its strings as character sequences.
pub ghost struct ConstantDetailsView {
    pub value: Seq<char>,
    pub ty: Seq<char>,
}

impl DeepView for ConstantDetails {
    type V = ConstantDetailsView;

    open spec fn deep_view(&self) -> ConstantDetailsView {
        ConstantDetailsView {
            value: self.value.deep_view(),
            ty: self.ty.deep_view(),
        }
    }
}

impl ConstantDetails {
    /// The value before anything is read.
    pub open spec fn spec_empty() -> ConstantDetailsView {
        ConstantDetailsView {
            value: Seq::empty(),
            ty: Seq::empty(),
        }
    }

    /// An empty value, to be filled in by the parser.
    pub fn empty() -> (r: ConstantDetails)
        ensures
            r.deep_view() == Self::spec_empty(),
    {
        ConstantDetails {
            value: String::new(),
            ty: String::new(),
        }
    }

    /// The value and the attribute map after the attributes of this part have been taken.
    pub open spec fn spec_attribs(
        acc: ConstantDetailsView,
        element: Seq<char>,
        attribs: AttribsView,
    ) -> Result<
        (ConstantDetailsView, AttribsView),
        ParseErrorView,
    > {
        match spec_req(attribs, element, "value"@) {
            Err(e) => Err(e),
            Ok((value, a)) => {
                match spec_req(a, element, "type"@) {
                    Err(e) => Err(e),
                    Ok((ty, a)) => {
                        Ok((ConstantDetailsView { value, ty }, a))
                    },
                }
            },
        }
    }

    /// Takes the attributes of this part from the map.
    pub fn parse_attribs(&mut self, element: &str, attribs: &mut Attribs) -> (r: Result<
        (),
        ParseError,
    >)
        ensures
            match Self::spec_attribs(old(self).deep_view(), element@, old(attribs).deep_view()) {
                Ok((acc, rest)) => r is Ok && final(self).deep_view() == acc
                    && final(attribs).deep_view() == rest,
                Err(e) => r is Err && r->Err_0.deep_view() == e,
            },
    {
        self.value = attribs.req_attrib(element, "value")?;
        self.ty = attribs.req_attrib(element, "type")?;
        Ok(())
    }
}

/// An enumerant with a numeric value.
pub struct ValueEnum {
    pub common: EnumCommon,
    pub details: ValueDetails,
}

/// `ValueEnum` with its strings as character sequences.
pub ghost struct ValueEnumView {
    pub common: EnumCommonView,
    pub details: ValueDetailsView,
}

impl DeepView for ValueEnum {
    type V = ValueEnumView;

    open spec fn deep_view(&self) -> ValueEnumView {
        ValueEnumView {
            common: self.common.deep_view(),
            details: self.details.deep_view(),
        }
    }
}

impl GenericParse for ValueEnum {
    open spec fn spec_name() -> Seq<char> {
        "enum"@
    }

    open spec fn spec_empty() -> ValueEnumView {
        ValueEnumView {
            common: EnumCommon::spec_empty(),
            details: ValueDetails::spec_empty(),
        }
    }

    open spec fn spec_attribs(
        acc: ValueEnumView,
        element: Seq<char>,
        attribs: AttribsView,
    ) -> Result<
        (ValueEnumView, AttribsView),
        ParseErrorView,
    > {
        match EnumCommon::spec_attribs(acc.common, element, attribs) {
            Err(e) => Err(e),
            Ok((common, a)) => {
                match ValueDetails::spec_attribs(acc.details, element, a) {
                    Err(e) => Err(e),
                    Ok((details, a)) => {
                        Ok((ValueEnumView { common, details }, a))
                    },
                }
            },
        }
    }

    open spec fn spec_child(
        acc: ValueEnumView,
        reader: ReaderView,
        element: Seq<char>,
        attribs: AttribsView,
    ) -> (Result<ValueEnumView, ParseErrorView>, ReaderView) {
        (Err(ParseErrorView::BadChild(Self::spec_name(), element)), reader)
    }

    open spec fn spec_text(
        acc: ValueEnumView,
        text: Seq<char>,
    ) -> Result<ValueEnumView, ParseErrorView> {
        Err(ParseErrorView::BadContent(Self::spec_name(), text))
    }

    fn name() -> &'static str {
        "enum"
    }

    fn empty() -> ValueEnum {
        ValueEnum {
            common: EnumCommon::empty(),
            details: ValueDetails::empty(),
        }
    }

    fn parse_attribs(&mut self, element: &str, attribs: &mut Attribs) -> (r: Result<
        (),
        ParseError,
    >) {
        self.common.parse_attribs(element, attribs)?;
        self.details.parse_attribs(element, attribs)?;
        Ok(())
    }

    fn parse_child(
        &mut self,
        reader: &mut Reader,
        element: String,
        attribs: &mut Attribs,
    ) -> (r: Result<(), ParseError>) {
        Err(ParseError::BadChild(String::from_str("enum"), element))
    }

    fn parse_text(&mut self, text: String) -> (r: Result<(), ParseError>) {
        Err(ParseError::BadContent(String::from_str("enum"), text))
    }
}

/// The value of an enumerant.
pub struct ValueDetails {
    pub value: String,
}

/// `ValueDetails` with its strings as character sequences.
pub ghost struct ValueDetailsView {
    pub value: Seq<char>,
}

impl DeepView for ValueDetails {
    type V = ValueDetailsView;

    open spec fn deep_view(&self) -> ValueDetailsView {
        ValueDetailsView {
            value: self.value.deep_view(),
        }
    }
}

impl ValueDetails {
    /// The value before anything is read.
    pub open spec fn spec_empty() -> ValueDetailsView {
        ValueDetailsView {
            value: Seq::empty(),
        }
    }

    /// An empty value, to be filled in by the parser.
    pub fn empty() -> (r: ValueDetails)
        ensures
            r.deep_view() == Self::spec_empty(),
    {
        ValueDetails {
            value: String::new(),
        }
    }

    /// The value and the attribute map after the attributes of this part have been taken.
    pub open spec fn spec_attribs(
        acc: ValueDetailsView,
        element: Seq<char>,
        attribs: AttribsView,
    ) -> Result<
        (ValueDetailsView, AttribsView),
        ParseErrorView,
    > {
        match spec_req(attribs, element, "value"@) {
            Err(e) => Err(e),
            Ok((value, a)) => {
                Ok((ValueDetailsView { value }, a))
            },
        }
    }

    /// Takes the attributes of this part from the map.
    pub fn parse_attribs(&mut self, element: &str, attribs: &mut Attribs) -> (r: Result<
        (),
        ParseError,
    >)
        ensures
            match Self::spec_attribs(old(self).deep_view(), element@, old(attribs).deep_view()) {
                Ok((acc, rest)) => r is Ok && final(self).deep_view() == acc
                    && final(attribs).deep_view() == rest,
                Err(e) => r is Err && r->Err_0.deep_view() == e,
            },
    {
        self.value = attribs.req_attrib(element, "value")?;
        Ok(())
    }
}

/// An enumerant that is one bit of a mask.
pub struct BitEnum {
    pub common: EnumCommon,
    pub details: BitDetails,
}

/// `BitEnum` with its strings as character sequences.
pub ghost struct BitEnumView {
    pub common: EnumCommonView,
    pub details: BitDetailsView,
}

impl DeepView for BitEnum {
    type V = BitEnumView;

    open spec fn deep_view(&self) -> BitEnumView {
        BitEnumView {
            common: self.common.deep_view(),
            details: self.details.deep_view(),
        }
    }
}

impl GenericParse for BitEnum {
    open spec fn spec_name() -> Seq<char> {
        "enum"@
    }

    open spec fn spec_empty() -> BitEnumView {
        BitEnumView {
            common: EnumCommon::spec_empty(),
            details: BitDetails::spec_empty(),
        }
    }

    open spec fn spec_attribs(acc: BitEnumView, element: Seq<char>, attribs: AttribsView) -> Result<
        (BitEnumView, AttribsView),
        ParseErrorView,
    > {
        match EnumCommon::spec_attribs(acc.common, element, attribs) {
            Err(e) => Err(e),
            Ok((common, a)) => {
                match BitDetails::spec_attribs(acc.details, element, a) {
                    Err(e) => Err(e),
                    Ok((details, a)) => {
                        Ok((BitEnumView { common, details }, a))
                    },
                }
            },
        }
    }

    open spec fn spec_child(
        acc: BitEnumView,
        reader: ReaderView,
        element: Seq<char>,
        attribs: AttribsView,
    ) -> (Result<BitEnumView, ParseErrorView>, ReaderView) {
        (Err(ParseErrorView::BadChild(Self::spec_name(), element)), reader)
    }

    open spec fn spec_text(
        acc: BitEnumView,
        text: Seq<char>,
    ) -> Result<BitEnumView, ParseErrorView> {
        Err(ParseErrorView::BadContent(Self::spec_name(), text))
    }

    fn name() -> &'static str {
        "enum"
    }

    fn empty() -> BitEnum {
        BitEnum {
            common: EnumCommon::empty(),
            details: BitDetails::empty(),
        }
    }

    fn parse_attribs(&mut self, element: &str, attribs: &mut Attribs) -> (r: Result<
        (),
        ParseError,
    >) {
        self.common.parse_attribs(element, attribs)?;
        self.details.parse_attribs(element, attribs)?;
        Ok(())
    }

    fn parse_child(
        &mut self,
        reader: &mut Reader,
        element: String,
        attribs: &mut Attribs,
    ) -> (r: Result<(), ParseError>) {
        Err(ParseError::BadChild(String::from_str("enum"), element))
    }

    fn parse_text(&mut self, text: String) -> (r: Result<(), ParseError>) {
        Err(ParseError::BadContent(String::from_str("enum"), text))
    }
}

/// The bit position of a flag.
pub struct BitDetails {
    pub bit_pos: String,
}

/// `BitDetails` with its strings as character sequences.
pub ghost struct BitDetailsView {
    pub bit_pos: Seq<char>,
}

impl DeepView for BitDetails {
    type V = BitDetailsView;

    open spec fn deep_view(&self) -> BitDetailsView {
        BitDetailsView {
            bit_pos: self.bit_pos.deep_view(),
        }
    }
}

impl BitDetails {
    /// The value before anything is read.
    pub open spec fn spec_empty() -> BitDetailsView {
        BitDetailsView {
            bit_pos: Seq::empty(),
        }
    }

    /// An empty value, to be filled in by the parser.
    pub fn empty() -> (r: BitDetails)
        ensures
            r.deep_view() == Self::spec_empty(),
    {
        BitDetails {
            bit_pos: String::new(),
        }
    }

    /// The value and the attribute map after the attributes of this part have been taken.
    pub open spec fn spec_attribs(
        acc: BitDetailsView,
        element: Seq<char>,
        attribs: AttribsView,
    ) -> Result<
        (BitDetailsView, AttribsView),
        ParseErrorView,
    > {
        match spec_req(attribs, element, "bitpos"@) {
            Err(e) => Err(e),
            Ok((bit_pos, a)) => {
                Ok((BitDetailsView { bit_pos }, a))
            },
        }
    }

    /// Takes the attributes of this part from the map.
    pub fn parse_attribs(&mut self, element: &str, attribs: &mut Attribs) -> (r: Result<
        (),
        ParseError,
    >)
        ensures
            match Self::spec_attribs(old(self).deep_view(), element@, old(attribs).deep_view()) {
                Ok((acc, rest)) => r is Ok && final(self).deep_view() == acc
                    && final(attribs).deep_view() == rest,
                Err(e) => r is Err && r->Err_0.deep_view() == e,
            },
    {
        self.bit_pos = attribs.req_attrib(element, "bitpos")?;
        Ok(())
    }
}

/// An enumerant that is another name for an enumerant.
pub struct AliasEnum {
    pub common: EnumCommon,
    pub details: AliasEnumDetails,
}

/// `AliasEnum` with its strings as character sequences.
pub ghost struct AliasEnumView {
    pub common: EnumCommonView,
    pub details: AliasEnumDetailsView,
}

impl DeepView for AliasEnum {
    type V = AliasEnumView;

    open spec fn deep_view(&self) -> AliasEnumView {
        AliasEnumView {
            common: self.common.deep_view(),
            details: self.details.deep_view(),
        }
    }
}

impl GenericParse for AliasEnum {
    open spec fn spec_name() -> Seq<char> {
        "enum"@
    }

    open spec fn spec_empty() -> AliasEnumView {
        AliasEnumView {
            common: EnumCommon::spec_empty(),
            details: AliasEnumDetails::spec_empty(),
        }
    }

    open spec fn spec_attribs(
        acc: AliasEnumView,
        element: Seq<char>,
        attribs: AttribsView,
    ) -> Result<
        (AliasEnumView, AttribsView),
        ParseErrorView,
    > {
        match EnumCommon::spec_attribs(acc.common, element, attribs) {
            Err(e) => Err(e),
            Ok((common, a)) => {
                match AliasEnumDetails::spec_attribs(acc.details, element, a) {
                    Err(e) => Err(e),
                    Ok((details, a)) => {
                        Ok((AliasEnumView { common, details }, a))
                    },
                }
            },
        }
    }

    open spec fn spec_child(
        acc: AliasEnumView,
        reader: ReaderView,
        element: Seq<char>,
        attribs: AttribsView,
    ) -> (Result<AliasEnumView, ParseErrorView>, ReaderView) {
        (Err(ParseErrorView::BadChild(Self::spec_name(), element)), reader)
    }

    open spec fn spec_text(
        acc: AliasEnumView,
        text: Seq<char>,
    ) -> Result<AliasEnumView, ParseErrorView> {
        Err(ParseErrorView::BadContent(Self::spec_name(), text))
    }

    fn name() -> &'static str {
        "enum"
    }

    fn empty() -> AliasEnum {
        AliasEnum {
            common: EnumCommon::empty(),
            details: AliasEnumDetails::empty(),
        }
    }

    fn parse_attribs(&mut self, element: &str, attribs: &mut Attribs) -> (r: Result<
        (),
        ParseError,
    >) {
        self.common.parse_attribs(element, attribs)?;
        self.details.parse_attribs(element, attribs)?;
        Ok(())
    }

    fn parse_child(
        &mut self,
        reader: &mut Reader,
        element: String,
        attribs: &mut Attribs,
    ) -> (r: Result<(), ParseError>) {
        Err(ParseError::BadChild(String::from_str("enum"), element))
    }

    fn parse_text(&mut self, text: String) -> (r: Result<(), ParseError>) {
        Err(ParseError::BadContent(String::from_str("enum"), text))
    }
}

/// The enumerant that an alias stands for.
pub struct AliasEnumDetails {
    pub name: String,
    pub alias: String,
    pub comment: Option<String>,
}

/// `AliasEnumDetails` with its strings as character sequences.
pub ghost struct AliasEnumDetailsView {
    pub name: Seq<char>,
    pub alias: Seq<char>,
    pub comment: Option<Seq<char>>,
}

impl DeepView for AliasEnumDetails {
    type V = AliasEnumDetailsView;

    open spec fn deep_view(&self) -> AliasEnumDetailsView {
        AliasEnumDetailsView {
            name: self.name.deep_view(),
            alias: self.alias.deep_view(),
            comment: self.comment.deep_view(),
        }
    }
}

impl AliasEnumDetails {
    /// The value before anything is read.
    pub open spec fn spec_empty() -> AliasEnumDetailsView {
        AliasEnumDetailsView {
            name: Seq::empty(),
            alias: Seq::empty(),
            comment: None,
        }
    }

    /// An empty value, to be filled in by the parser.
    pub fn empty() -> (r: AliasEnumDetails)
        ensures
            r.deep_view() == Self::spec_empty(),
    {
        AliasEnumDetails {
            name: String::new(),
            alias: String::new(),
            comment: None,
        }
    }

    /// The value and the attribute map after the attributes of this part have been taken.
    pub open spec fn spec_attribs(
        acc: AliasEnumDetailsView,
        element: Seq<char>,
        attribs: AttribsView,
    ) -> Result<
        (AliasEnumDetailsView, AttribsView),
        ParseErrorView,
    > {
        match spec_req(attribs, element, "alias"@) {
            Err(e) => Err(e),
            Ok((alias, a)) => {
                Ok((AliasEnumDetailsView { alias, ..acc }, a))
            },
        }
    }

    /// Takes the attributes of this part from the map.
    pub fn parse_attribs(&mut self, element: &str, attribs: &mut Attribs) -> (r: Result<
        (),
        ParseError,
    >)
        ensures
            match Self::spec_attribs(old(self).deep_view(), element@, old(attribs).deep_view()) {
                Ok((acc, rest)) => r is Ok && final(self).deep_view() == acc
                    && final(attribs).deep_view() == rest,
                Err(e) => r is Err && r->Err_0.deep_view() == e,
            },
    {
        self.alias = attribs.req_attrib(element, "alias")?;
        Ok(())
    }
}

/// A range of values that an `enums` block leaves free.
pub struct Unused {
    pub start: String,
    pub comment: Option<String>,
}

/// `Unused` with its strings as character sequences.
pub ghost struct UnusedView {
    pub start: Seq<char>,
    pub comment: Option<Seq<char>>,
}

impl DeepView for Unused {
    type V = UnusedView;

    open spec fn deep_view(&self) -> UnusedView {
        UnusedView {
            start: self.start.deep_view(),
            comment: self.comment.deep_view(),
        }
    }
}

impl GenericParse for Unused {
    open spec fn spec_name() -> Seq<char> {
        "unused"@
    }

    open spec fn spec_empty() -> UnusedView {
        UnusedView {
            start: Seq::empty(),
            comment: None,
        }
    }

    open spec fn spec_attribs(acc: UnusedView, element: Seq<char>, attribs: AttribsView) -> Result<
        (UnusedView, AttribsView),
        ParseErrorView,
    > {
        match spec_req(attribs, element, "start"@) {
            Err(e) => Err(e),
            Ok((start, a)) => {
                let (comment, a) = spec_take(a, "comment"@);
                Ok((UnusedView { start, comment }, a))
            },
        }
    }

    open spec fn spec_child(
        acc: UnusedView,
        reader: ReaderView,
        element: Seq<char>,
        attribs: AttribsView,
    ) -> (Result<UnusedView, ParseErrorView>, ReaderView) {
        (Err(ParseErrorView::BadChild(Self::spec_name(), element)), reader)
    }

    open spec fn spec_text(acc: UnusedView, text: Seq<char>) -> Result<UnusedView, ParseErrorView> {
        Err(ParseErrorView::BadContent(Self::spec_name(), text))
    }

    fn name() -> &'static str {
        "unused"
    }

    fn empty() -> Unused {
        Unused {
            start: String::new(),
            comment: None,
        }
    }

    fn parse_attribs(&mut self, element: &str, attribs: &mut Attribs) -> (r: Result<
        (),
        ParseError,
    >) {
        self.start = attribs.req_attrib(element, "start")?;
        self.comment = attribs.remove("comment");
        Ok(())
    }

    fn parse_child(
        &mut self,
        reader: &mut Reader,
        element: String,
        attribs: &mut Attribs,
    ) -> (r: Result<(), ParseError>) {
        Err(ParseError::BadChild(String::from_str("unused"), element))
    }

    fn parse_text(&mut self, text: String) -> (r: Result<(), ParseError>) {
        Err(ParseError::BadContent(String::from_str("unused"), text))
    }
}

} // verus!
