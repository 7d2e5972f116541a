//! The `types` element.
//!
//! A `type` element has one of ten grammars, told apart by its `category` attribute. Each has
//! a handler of its own; what they read is kept as a common part and a body by category.

use vstd::prelude::*;
use vstd::string::*;
use crate::attribs::Attribs;
use crate::attribs::AttribsView;
use crate::attribs::spec_take;
use crate::attribs::spec_take_list;
use crate::attribs::spec_try_get;
use crate::attribs::spec_try_get_list;
use crate::error::ParseError;
use crate::error::ParseErrorView;
use crate::parse::generic::GenericItem;
use crate::parse::generic::GenericItemKind;
use crate::parse::generic::GenericItemView;
use crate::parse::generic::header_name;
use crate::parse::generic::spec_header_name;
use crate::parse::protocol::GenericParse;
use crate::parse::protocol::Parse;
use crate::parse::protocol::Reader;
use crate::parse::protocol::ReaderView;
use crate::parse::protocol::add_item;
use crate::parse::protocol::map_read;
use crate::parse::protocol::no_items;
use crate::parse::registry::Comment;
use crate::parse::registry::CommentView;
use crate::parse::values::Len;
use crate::parse::values::LenView;
use crate::parse::values::LimitType;
use crate::repr::Deprecation;
use crate::text::str_eq;

verus! {

/// The `types` element: the list of type declarations.
pub struct Types {
    pub items: Vec<TypesItem>,
    pub comment: Option<String>,
}

/// `Types` with its strings as character sequences.
pub ghost struct TypesView {
    pub items: Seq<TypesItemView>,
    pub comment: Option<Seq<char>>,
}

impl DeepView for Types {
    type V = TypesView;

    open spec fn deep_view(&self) -> TypesView {
        TypesView {
            items: self.items.deep_view(),
            comment: self.comment.deep_view(),
        }
    }
}

impl GenericParse for Types {
    open spec fn spec_name() -> Seq<char> {
        "types"@
    }

    open spec fn spec_empty() -> TypesView {
        TypesView {
            items: Seq::empty(),
            comment: None,
        }
    }

    open spec fn spec_attribs(acc: TypesView, element: Seq<char>, attribs: AttribsView) -> Result<
        (TypesView, AttribsView),
        ParseErrorView,
    > {
        let (comment, a) = spec_take(attribs, "comment"@);
        Ok((TypesView { comment, ..acc }, a))
    }

    open spec fn spec_child(
        acc: TypesView,
        reader: ReaderView,
        element: Seq<char>,
        attribs: AttribsView,
    ) -> (Result<TypesView, ParseErrorView>, ReaderView) {
        map_read(
            TypesItem::spec_read(reader, element, attribs),
            |item: TypesItemView| TypesView { items: acc.items.push(item), ..acc },
        )
    }

    open spec fn spec_text(acc: TypesView, text: Seq<char>) -> Result<TypesView, ParseErrorView> {
        Err(ParseErrorView::BadContent(Self::spec_name(), text))
    }

    fn name() -> &'static str {
        "types"
    }

    fn empty() -> Types {
        Types {
            items: no_items(),
            comment: None,
        }
    }

    fn parse_attribs(&mut self, element: &str, attribs: &mut Attribs) -> (r: Result<
        (),
        ParseError,
    >) {
        self.comment = attribs.remove("comment");
        Ok(())
    }

    fn parse_child(
        &mut self,
        reader: &mut Reader,
        element: String,
        attribs: &mut Attribs,
    ) -> (r: Result<(), ParseError>) {
        let item = TypesItem::parse(reader, element, attribs)?;
        add_item(&mut self.items, item);
        Ok(())
    }

    fn parse_text(&mut self, text: String) -> (r: Result<(), ParseError>) {
        Err(ParseError::BadContent(String::from_str("types"), text))
    }
}

/// A child of the `types` element.
pub enum TypesItem {
    Comment(Comment),
    Type(Type),
}

/// `TypesItem` with its strings as character sequences.
pub ghost enum TypesItemView {
    Comment(CommentView),
    Type(TypeView),
}

impl DeepView for TypesItem {
    type V = TypesItemView;

    open spec fn deep_view(&self) -> TypesItemView {
        match *self {
            TypesItem::Comment(x) => TypesItemView::Comment(x.deep_view()),
            TypesItem::Type(x) => TypesItemView::Type(x.deep_view()),
        }
    }
}

impl Parse for TypesItem {
    open spec fn spec_read(reader: ReaderView, element: Seq<char>, attribs: AttribsView) -> (
        Result<TypesItemView, ParseErrorView>,
        ReaderView,
    ) {
        if element == "comment"@ {
            map_read(
                Comment::spec_read(reader, element, attribs),
                |x: CommentView| TypesItemView::Comment(x),
            )
        } else if element == "type"@ {
            map_read(
                Type::spec_read(reader, element, attribs),
                |x: TypeView| TypesItemView::Type(x),
            )
        } else {
            (Err(ParseErrorView::BadChild("types"@, element)), reader)
        }
    }

    fn parse(reader: &mut Reader, element: String, attribs: &mut Attribs) -> (r: Result<
        TypesItem,
        ParseError,
    >) {
        if str_eq(element.as_str(), "comment") {
            Ok(TypesItem::Comment(Comment::parse(reader, element, attribs)?))
        } else if str_eq(element.as_str(), "type") {
            Ok(TypesItem::Type(Type::parse(reader, element, attribs)?))
        } else {
            Err(ParseError::BadChild(String::from_str("types"), element))
        }
    }
}

/// A type declaration: what all categories share, and what its category adds.
pub struct Type {
    pub common: TypeCommon,
    pub details: TypeDetails,
}

/// `Type` with its strings as character sequences.
pub ghost struct TypeView {
    pub common: TypeCommonView,
    pub details: TypeDetailsView,
}

impl DeepView for Type {
    type V = TypeView;

    open spec fn deep_view(&self) -> TypeView {
        TypeView { common: self.common.deep_view(), details: self.details.deep_view() }
    }
}

/// What a type declaration holds besides the common part, by category.
pub enum TypeDetails {
    Include(IncludeDetails),
    Define(DefineDetails),
    Base(BaseTypeDetails),
    Handle(HandleDetails),
    Bitmask(BitmaskDetails),
    Enum(EnumTypeDetails),
    FnPtr(FnPtrDetails),
    Struct(StructDetails),
    Union(UnionDetails),
    Imported(ImportedDetails),
}

/// `TypeDetails` with its strings as character sequences.
pub ghost enum TypeDetailsView {
    Include(IncludeDetailsView),
    Define(DefineDetailsView),
    Base(BaseTypeDetailsView),
    Handle(HandleDetailsView),
    Bitmask(BitmaskDetailsView),
    Enum(EnumTypeDetailsView),
    FnPtr(FnPtrDetailsView),
    Struct(StructDetailsView),
    Union(UnionDetailsView),
    Imported(ImportedDetailsView),
}

impl DeepView for TypeDetails {
    type V = TypeDetailsView;

    open spec fn deep_view(&self) -> TypeDetailsView {
        match *self {
            TypeDetails::Include(x) => TypeDetailsView::Include(x.deep_view()),
            TypeDetails::Define(x) => TypeDetailsView::Define(x.deep_view()),
            TypeDetails::Base(x) => TypeDetailsView::Base(x.deep_view()),
            TypeDetails::Handle(x) => TypeDetailsView::Handle(x.deep_view()),
            TypeDetails::Bitmask(x) => TypeDetailsView::Bitmask(x.deep_view()),
            TypeDetails::Enum(x) => TypeDetailsView::Enum(x.deep_view()),
            TypeDetails::FnPtr(x) => TypeDetailsView::FnPtr(x.deep_view()),
            TypeDetails::Struct(x) => TypeDetailsView::Struct(x.deep_view()),
            TypeDetails::Union(x) => TypeDetailsView::Union(x.deep_view()),
            TypeDetails::Imported(x) => TypeDetailsView::Imported(x.deep_view()),
        }
    }
}

impl Parse for Type {
    open spec fn spec_read(reader: ReaderView, element: Seq<char>, attribs: AttribsView) -> (
        Result<TypeView, ParseErrorView>,
        ReaderView,
    ) {
        let (category, a) = spec_take(attribs, "category"@);
        match category {
            Some(category) => {
                if category == "include"@ {
                    map_read(
                        IncludeType::spec_read(reader, element, a),
                        |x: IncludeTypeView| TypeView {
                            common: x.common,
                            details: TypeDetailsView::Include(x.details),
                        },
                    )
                } else if category == "define"@ {
                    map_read(
                        DefineType::spec_read(reader, element, a),
                        |x: DefineTypeView| TypeView {
                            common: x.common,
                            details: TypeDetailsView::Define(x.details),
                        },
                    )
                } else if category == "basetype"@ {
                    map_read(
                        BaseType::spec_read(reader, element, a),
                        |x: BaseTypeView| TypeView {
                            common: x.common,
                            details: TypeDetailsView::Base(x.details),
                        },
                    )
                } else if category == "handle"@ {
                    map_read(
                        HandleType::spec_read(reader, element, a),
                        |x: HandleTypeView| TypeView {
                            common: x.common,
                            details: TypeDetailsView::Handle(x.details),
                        },
                    )
                } else if category == "bitmask"@ {
                    map_read(
                        BitmaskType::spec_read(reader, element, a),
                        |x: BitmaskTypeView| TypeView {
                            common: x.common,
                            details: TypeDetailsView::Bitmask(x.details),
                        },
                    )
                } else if category == "enum"@ {
                    map_read(
                        EnumType::spec_read(reader, element, a),
                        |x: EnumTypeView| TypeView {
                            common: x.common,
                            details: TypeDetailsView::Enum(x.details),
                        },
                    )
                } else if category == "funcpointer"@ {
                    map_read(
                        FnPtrType::spec_read(reader, element, a),
                        |x: FnPtrTypeView| TypeView {
                            common: x.common,
                            details: TypeDetailsView::FnPtr(x.details),
                        },
                    )
                } else if category == "struct"@ {
                    map_read(
                        StructType::spec_read(reader, element, a),
                        |x: StructTypeView| TypeView {
                            common: x.common,
                            details: TypeDetailsView::Struct(x.details),
                        },
                    )
                } else if category == "union"@ {
                    map_read(
                        UnionType::spec_read(reader, element, a),
                        |x: UnionTypeView| TypeView {
                            common: x.common,
                            details: TypeDetailsView::Union(x.details),
                        },
                    )
                } else {
                    (Err(ParseErrorView::BadAttrib(element, "category"@, category)), reader)
                }
            },
            None => {
                map_read(
                    ImportedType::spec_read(reader, element, a),
                    |x: ImportedTypeView| TypeView {
                        common: x.common,
                        details: TypeDetailsView::Imported(x.details),
                    },
                )
            },
        }
    }

    fn parse(reader: &mut Reader, element: String, attribs: &mut Attribs) -> (r: Result<
        Type,
        ParseError,
    >) {
        match attribs.remove("category") {
            Some(category) => {
                if str_eq(category.as_str(), "include") {
                    Ok(IncludeType::parse(reader, element, attribs)?.into_type())
                } else if str_eq(category.as_str(), "define") {
                    Ok(DefineType::parse(reader, element, attribs)?.into_type())
                } else if str_eq(category.as_str(), "basetype") {
                    Ok(BaseType::parse(reader, element, attribs)?.into_type())
                } else if str_eq(category.as_str(), "handle") {
                    Ok(HandleType::parse(reader, element, attribs)?.into_type())
                } else if str_eq(category.as_str(), "bitmask") {
                    Ok(BitmaskType::parse(reader, element, attribs)?.into_type())
                } else if str_eq(category.as_str(), "enum") {
                    Ok(EnumType::parse(reader, element, attribs)?.into_type())
                } else if str_eq(category.as_str(), "funcpointer") {
                    Ok(FnPtrType::parse(reader, element, attribs)?.into_type())
                } else if str_eq(category.as_str(), "struct") {
                    Ok(StructType::parse(reader, element, attribs)?.into_type())
                } else if str_eq(category.as_str(), "union") {
                    Ok(UnionType::parse(reader, element, attribs)?.into_type())
                } else {
                    Err(ParseError::BadAttrib(element, String::from_str("category"), category))
                }
            },
            None => Ok(ImportedType::parse(reader, element, attribs)?.into_type()),
        }
    }
}

impl IncludeType {
    /// This element as a `Type`.
    pub fn into_type(self) -> (r: Type)
        ensures
            r == (Type { common: self.common, details: TypeDetails::Include(self.details) }),
    {
        let IncludeType { common, details } = self;
        Type { common, details: TypeDetails::Include(details) }
    }
}

impl DefineType {
    /// This element as a `Type`.
    pub fn into_type(self) -> (r: Type)
        ensures
            r == (Type { common: self.common, details: TypeDetails::Define(self.details) }),
    {
        let DefineType { common, details } = self;
        Type { common, details: TypeDetails::Define(details) }
    }
}

impl BaseType {
    /// This element as a `Type`.
    pub fn into_type(self) -> (r: Type)
        ensures
            r == (Type { common: self.common, details: TypeDetails::Base(self.details) }),
    {
        let BaseType { common, details } = self;
        Type { common, details: TypeDetails::Base(details) }
    }
}

impl HandleType {
    /// This element as a `Type`.
    pub fn into_type(self) -> (r: Type)
        ensures
            r == (Type { common: self.common, details: TypeDetails::Handle(self.details) }),
    {
        let HandleType { common, details } = self;
        Type { common, details: TypeDetails::Handle(details) }
    }
}

impl BitmaskType {
    /// This element as a `Type`.
    pub fn into_type(self) -> (r: Type)
        ensures
            r == (Type { common: self.common, details: TypeDetails::Bitmask(self.details) }),
    {
        let BitmaskType { common, details } = self;
        Type { common, details: TypeDetails::Bitmask(details) }
    }
}

impl EnumType {
    /// This element as a `Type`.
    pub fn into_type(self) -> (r: Type)
        ensures
            r == (Type { common: self.common, details: TypeDetails::Enum(self.details) }),
    {
        let EnumType { common, details } = self;
        Type { common, details: TypeDetails::Enum(details) }
    }
}

impl FnPtrType {
    /// This element as a `Type`.
    pub fn into_type(self) -> (r: Type)
        ensures
            r == (Type { common: self.common, details: TypeDetails::FnPtr(self.details) }),
    {
        let FnPtrType { common, details } = self;
        Type { common, details: TypeDetails::FnPtr(details) }
    }
}

impl StructType {
    /// This element as a `Type`.
    pub fn into_type(self) -> (r: Type)
        ensures
            r == (Type { common: self.common, details: TypeDetails::Struct(self.details) }),
    {
        let StructType { common, details } = self;
        Type { common, details: TypeDetails::Struct(details) }
    }
}

impl UnionType {
    /// This element as a `Type`.
    pub fn into_type(self) -> (r: Type)
        ensures
            r == (Type { common: self.common, details: TypeDetails::Union(self.details) }),
    {
        let UnionType { common, details } = self;
        Type { common, details: TypeDetails::Union(details) }
    }
}

impl ImportedType {
    /// This element as a `Type`.
    pub fn into_type(self) -> (r: Type)
        ensures
            r == (Type { common: self.common, details: TypeDetails::Imported(self.details) }),
    {
        let ImportedType { common, details } = self;
        Type { common, details: TypeDetails::Imported(details) }
    }
}

/// What every type declaration holds.
pub struct TypeCommon {
    pub name: String,
    pub requires: Option<String>,
    pub deprecated: Option<Deprecation>,
    pub api: Option<Vec<String>>,
    pub alias: Option<String>,
    pub comment: Option<String>,
}

/// `TypeCommon` with its strings as character sequences.
pub ghost struct TypeCommonView {
    pub name: Seq<char>,
    pub requires: Option<Seq<char>>,
    pub deprecated: Option<Deprecation>,
    pub api: Option<Seq<Seq<char>>>,
    pub alias: Option<Seq<char>>,
    pub comment: Option<Seq<char>>,
}

impl DeepView for TypeCommon {
    type V = TypeCommonView;

    open spec fn deep_view(&self) -> TypeCommonView {
        TypeCommonView {
            name: self.name.deep_view(),
            requires: self.requires.deep_view(),
            deprecated: self.deprecated.deep_view(),
            api: self.api.deep_view(),
            alias: self.alias.deep_view(),
            comment: self.comment.deep_view(),
        }
    }
}

impl TypeCommon {
    /// The value before anything is read.
    pub open spec fn spec_empty() -> TypeCommonView {
        TypeCommonView {
            name: Seq::empty(),
            requires: None,
            deprecated: None,
            api: None,
            alias: None,
            comment: None,
        }
    }

    /// An empty value, to be filled in by the parser.
    pub fn empty() -> (r: TypeCommon)
        ensures
            r.deep_view() == Self::spec_empty(),
    {
        TypeCommon {
            name: String::new(),
            requires: None,
            deprecated: None,
            api: None,
            alias: None,
            comment: None,
        }
    }

    /// The value and the attribute map after the attributes of this part have been taken.
    pub open spec fn spec_attribs(
        acc: TypeCommonView,
        element: Seq<char>,
        attribs: AttribsView,
    ) -> Result<
        (TypeCommonView, AttribsView),
        ParseErrorView,
    > {
        let (name, a) = spec_take(attribs, "name"@);
        let name = match name {
            Some(v) => v,
            None => acc.name,
        };
        let (required, a) = spec_take(a, "requires"@);
        match spec_try_get::<Deprecation>(a, element, "deprecated"@) {
            Err(e) => Err(e),
            Ok((deprecated, a)) => {
                let (api, a) = spec_take_list(a, "api"@);
                let (alias, a) = spec_take(a, "alias"@);
                let (comment, a) = spec_take(a, "comment"@);
                Ok(
                    (
                        TypeCommonView {
                            name,
                            requires: required,
                            deprecated,
                            api,
                            alias,
                            comment,
                        },
                        a,
                    ),
                )
            },
        }
    }

    /// Takes the attributes of this part from the map.
    pub fn parse_attribs(&mut self, element: &str, attribs: &mut Attribs) -> (r: Result<
        (),
        ParseError,
    >)
        ensures
            match Self::spec_attribs(old(self).deep_view(), element@, old(attribs).deep_view()) {
                Ok((acc, rest)) => r is Ok && final(self).deep_view() == acc
                    && final(attribs).deep_view() == rest,
                Err(e) => r is Err && r->Err_0.deep_view() == e,
            },
    {
        match attribs.remove("name") {
            Some(v) => {
                self.name = v;
            },
            None => {},
        }
        self.requires = attribs.remove("requires");
        self.deprecated = attribs.try_get::<Deprecation>(element, "deprecated")?;
        self.api = attribs.remove_list("api");
        self.alias = attribs.remove("alias");
        self.comment = attribs.remove("comment");
        Ok(())
    }
}

/// A type of category `include`: a header file. Where no attribute names it, its name is taken
/// from the include directive in its text.
pub struct IncludeType {
    pub common: TypeCommon,
    pub details: IncludeDetails,
}

/// `IncludeType` with its strings as character sequences.
pub ghost struct IncludeTypeView {
    pub common: TypeCommonView,
    pub details: IncludeDetailsView,
}

impl DeepView for IncludeType {
    type V = IncludeTypeView;

    open spec fn deep_view(&self) -> IncludeTypeView {
        IncludeTypeView {
            common: self.common.deep_view(),
            details: self.details.deep_view(),
        }
    }
}

impl GenericParse for IncludeType {
    open spec fn spec_name() -> Seq<char> {
        "type"@
    }

    open spec fn spec_empty() -> IncludeTypeView {
        IncludeTypeView {
            common: TypeCommon::spec_empty(),
            details: IncludeDetails::spec_empty(),
        }
    }

    open spec fn spec_attribs(
        acc: IncludeTypeView,
        element: Seq<char>,
        attribs: AttribsView,
    ) -> Result<
        (IncludeTypeView, AttribsView),
        ParseErrorView,
    > {
        match TypeCommon::spec_attribs(acc.common, element, attribs) {
            Err(e) => Err(e),
            Ok((common, a)) => {
                match IncludeDetails::spec_attribs(acc.details, element, a) {
                    Err(e) => Err(e),
                    Ok((details, a)) => {
                        Ok((IncludeTypeView { common, details }, a))
                    },
                }
            },
        }
    }

    open spec fn spec_child(
        acc: IncludeTypeView,
        reader: ReaderView,
        element: Seq<char>,
        attribs: AttribsView,
    ) -> (Result<IncludeTypeView, ParseErrorView>, ReaderView) {
        (Err(ParseErrorView::BadChild(Self::spec_name(), element)), reader)
    }

    open spec fn spec_text(
        acc: IncludeTypeView,
        text: Seq<char>,
    ) -> Result<IncludeTypeView, ParseErrorView> {
        Ok(
            IncludeTypeView {
                common: TypeCommonView {
                    name: if acc.common.name.len() == 0
                        && spec_header_name(
                            text,
                        ) is Some { spec_header_name(text)->0 } else { acc.common.name },
                    ..acc.common
                },
                details: IncludeDetailsView {
                    items: acc.details.items.push(
                        GenericItemView { text, kind: GenericItemKind::Text },
                    ),
                },
            },
        )
    }

    fn name() -> &'static str {
        "type"
    }

    fn empty() -> IncludeType {
        IncludeType {
            common: TypeCommon::empty(),
            details: IncludeDetails::empty(),
        }
    }

    fn parse_attribs(&mut self, element: &str, attribs: &mut Attribs) -> (r: Result<
        (),
        ParseError,
    >) {
        self.common.parse_attribs(element, attribs)?;
        self.details.parse_attribs(element, attribs)?;
        Ok(())
    }

    fn parse_child(
        &mut self,
        reader: &mut Reader,
        element: String,
        attribs: &mut Attribs,
    ) -> (r: Result<(), ParseError>) {
        Err(ParseError::BadChild(String::from_str("type"), element))
    }

    fn parse_text(&mut self, text: String) -> (r: Result<(), ParseError>) {
        if self.common.name.as_str().unicode_len() == 0 {
            match header_name(text.as_str()) {
                Some(name) => {
                    self.common.name = name;
                },
                None => {},
            }
        }
        add_item(&mut self.details.items, GenericItem::text(text));
        Ok(())
    }
}

/// The body of an `include` type.
pub struct IncludeDetails {
    pub items: Vec<GenericItem>,
}

/// `IncludeDetails` with its strings as character sequences.
pub ghost struct IncludeDetailsView {
    pub items: Seq<GenericItemView>,
}

impl DeepView for IncludeDetails {
    type V = IncludeDetailsView;

    open spec fn deep_view(&self) -> IncludeDetailsView {
        IncludeDetailsView {
            items: self.items.deep_view(),
        }
    }
}

impl IncludeDetails {
    /// The value before anything is read.
    pub open spec fn spec_empty() -> IncludeDetailsView {
        IncludeDetailsView {
            items: Seq::empty(),
        }
    }

    /// An empty value, to be filled in by the parser.
    pub fn empty() -> (r: IncludeDetails)
        ensures
            r.deep_view() == Self::spec_empty(),
    {
        IncludeDetails {
            items: no_items(),
        }
    }

    /// The value and the attribute map after the attributes of this part have been taken.
    pub open spec fn spec_attribs(
        acc: IncludeDetailsView,
        element: Seq<char>,
        attribs: AttribsView,
    ) -> Result<
        (IncludeDetailsView, AttribsView),
        ParseErrorView,
    > {
        Ok((acc, attribs))
    }

    /// Takes the attributes of this part from the map.
    pub fn parse_attribs(&mut self, element: &str, attribs: &mut Attribs) -> (r: Result<
        (),
        ParseError,
    >)
        ensures
            match Self::spec_attribs(old(self).deep_view(), element@, old(attribs).deep_view()) {
                Ok((acc, rest)) => r is Ok && final(self).deep_view() == acc
                    && final(attribs).deep_view() == rest,
                Err(e) => r is Err && r->Err_0.deep_view() == e,
            },
    {
        Ok(())
    }
}

/// A type of category `define`: a preprocessor macro.
pub struct DefineType {
    pub common: TypeCommon,
    pub details: DefineDetails,
}

/// `DefineType` with its strings as character sequences.
pub ghost struct DefineTypeView {
    pub common: TypeCommonView,
    pub details: DefineDetailsView,
}

impl DeepView for DefineType {
    type V = DefineTypeView;

    open spec fn deep_view(&self) -> DefineTypeView {
        DefineTypeView {
            common: self.common.deep_view(),
            details: self.details.deep_view(),
        }
    }
}

impl GenericParse for DefineType {
    open spec fn spec_name() -> Seq<char> {
        "type"@
    }

    open spec fn spec_empty() -> DefineTypeView {
        DefineTypeView {
            common: TypeCommon::spec_empty(),
            details: DefineDetails::spec_empty(),
        }
    }

    open spec fn spec_attribs(
        acc: DefineTypeView,
        element: Seq<char>,
        attribs: AttribsView,
    ) -> Result<
        (DefineTypeView, AttribsView),
        ParseErrorView,
    > {
        match TypeCommon::spec_attribs(acc.common, element, attribs) {
            Err(e) => Err(e),
            Ok((common, a)) => {
                match DefineDetails::spec_attribs(acc.details, element, a) {
                    Err(e) => Err(e),
                    Ok((details, a)) => {
                        Ok((DefineTypeView { common, details }, a))
                    },
                }
            },
        }
    }

    open spec fn spec_child(
        acc: DefineTypeView,
        reader: ReaderView,
        element: Seq<char>,
        attribs: AttribsView,
    ) -> (Result<DefineTypeView, ParseErrorView>, ReaderView) {
        map_read(
            GenericItem::spec_read(reader, element, attribs),
            |item: GenericItemView|
                DefineTypeView {
                    common: TypeCommonView {
                        name: if item.kind == GenericItemKind::Name {
                            item.text
                        } else {
                            acc.common.name
                        },
                        ..acc.common
                    },
                    details: DefineDetailsView { items: acc.details.items.push(item) },
                },
        )
    }

    open spec fn spec_text(
        acc: DefineTypeView,
        text: Seq<char>,
    ) -> Result<DefineTypeView, ParseErrorView> {
        Ok(
            DefineTypeView { details: DefineDetailsView { items: acc.details.items.push(
                GenericItemView { text, kind: GenericItemKind::Text },
            ) }, ..acc },
        )
    }

    fn name() -> &'static str {
        "type"
    }

    fn empty() -> DefineType {
        DefineType {
            common: TypeCommon::empty(),
            details: DefineDetails::empty(),
        }
    }

    fn parse_attribs(&mut self, element: &str, attribs: &mut Attribs) -> (r: Result<
        (),
        ParseError,
    >) {
        self.common.parse_attribs(element, attribs)?;
        self.details.parse_attribs(element, attribs)?;
        Ok(())
    }

    fn parse_child(
        &mut self,
        reader: &mut Reader,
        element: String,
        attribs: &mut Attribs,
    ) -> (r: Result<(), ParseError>) {
        let item = GenericItem::parse(reader, element, attribs)?;
        if item.kind == GenericItemKind::Name {
            self.common.name = item.text.clone();
        }
        add_item(&mut self.details.items, item);
        Ok(())
    }

    fn parse_text(&mut self, text: String) -> (r: Result<(), ParseError>) {
        add_item(&mut self.details.items, GenericItem::text(text));
        Ok(())
    }
}

/// The body of a `define` type.
pub struct DefineDetails {
    pub items: Vec<GenericItem>,
}

/// `DefineDetails` with its strings as character sequences.
pub ghost struct DefineDetailsView {
    pub items: Seq<GenericItemView>,
}

impl DeepView for DefineDetails {
    type V = DefineDetailsView;

    open spec fn deep_view(&self) -> DefineDetailsView {
        DefineDetailsView {
            items: self.items.deep_view(),
        }
    }
}

impl DefineDetails {
    /// The value before anything is read.
    pub open spec fn spec_empty() -> DefineDetailsView {
        DefineDetailsView {
            items: Seq::empty(),
        }
    }

    /// An empty value, to be filled in by the parser.
    pub fn empty() -> (r: DefineDetails)
        ensures
            r.deep_view() == Self::spec_empty(),
    {
        DefineDetails {
            items: no_items(),
        }
    }

    /// The value and the attribute map after the attributes of this part have been taken.
    pub open spec fn spec_attribs(
        acc: DefineDetailsView,
        element: Seq<char>,
        attribs: AttribsView,
    ) -> Result<
        (DefineDetailsView, AttribsView),
        ParseErrorView,
    > {
        Ok((acc, attribs))
    }

    /// Takes the attributes of this part from the map.
    pub fn parse_attribs(&mut self, element: &str, attribs: &mut Attribs) -> (r: Result<
        (),
        ParseError,
    >)
        ensures
            match Self::spec_attribs(old(self).deep_view(), element@, old(attribs).deep_view()) {
                Ok((acc, rest)) => r is Ok && final(self).deep_view() == acc
                    && final(attribs).deep_view() == rest,
                Err(e) => r is Err && r->Err_0.deep_view() == e,
            },
    {
        Ok(())
    }
}

/// A type of category `basetype`: a typedef onto a primitive.
pub struct BaseType {
    pub common: TypeCommon,
    pub details: BaseTypeDetails,
}

/// `BaseType` with its strings as character sequences.
pub ghost struct BaseTypeView {
    pub common: TypeCommonView,
    pub details: BaseTypeDetailsView,
}

impl DeepView for BaseType {
    type V = BaseTypeView;

    open spec fn deep_view(&self) -> BaseTypeView {
        BaseTypeView {
            common: self.common.deep_view(),
            details: self.details.deep_view(),
        }
    }
}

impl GenericParse for BaseType {
    open spec fn spec_name() -> Seq<char> {
        "type"@
    }

    open spec fn spec_empty() -> BaseTypeView {
        BaseTypeView {
            common: TypeCommon::spec_empty(),
            details: BaseTypeDetails::spec_empty(),
        }
    }

    open spec fn spec_attribs(
        acc: BaseTypeView,
        element: Seq<char>,
        attribs: AttribsView,
    ) -> Result<
        (BaseTypeView, AttribsView),
        ParseErrorView,
    > {
        match TypeCommon::spec_attribs(acc.common, element, attribs) {
            Err(e) => Err(e),
            Ok((common, a)) => {
                match BaseTypeDetails::spec_attribs(acc.details, element, a) {
                    Err(e) => Err(e),
                    Ok((details, a)) => {
                        Ok((BaseTypeView { common, details }, a))
                    },
                }
            },
        }
    }

    open spec fn spec_child(
        acc: BaseTypeView,
        reader: ReaderView,
        element: Seq<char>,
        attribs: AttribsView,
    ) -> (Result<BaseTypeView, ParseErrorView>, ReaderView) {
        map_read(
            GenericItem::spec_read(reader, element, attribs),
            |item: GenericItemView|
                BaseTypeView {
                    common: TypeCommonView {
                        name: if item.kind == GenericItemKind::Name {
                            item.text
                        } else {
                            acc.common.name
                        },
                        ..acc.common
                    },
                    details: BaseTypeDetailsView { items: acc.details.items.push(item) },
                },
        )
    }

    open spec fn spec_text(
        acc: BaseTypeView,
        text: Seq<char>,
    ) -> Result<BaseTypeView, ParseErrorView> {
        Ok(
            BaseTypeView { details: BaseTypeDetailsView { items: acc.details.items.push(
                GenericItemView { text, kind: GenericItemKind::Text },
            ) }, ..acc },
        )
    }

    fn name() -> &'static str {
        "type"
    }

    fn empty() -> BaseType {
        BaseType {
            common: TypeCommon::empty(),
            details: BaseTypeDetails::empty(),
        }
    }

    fn parse_attribs(&mut self, element: &str, attribs: &mut Attribs) -> (r: Result<
        (),
        ParseError,
    >) {
        self.common.parse_attribs(element, attribs)?;
        self.details.parse_attribs(element, attribs)?;
        Ok(())
    }

    fn parse_child(
        &mut self,
        reader: &mut Reader,
        element: String,
        attribs: &mut Attribs,
    ) -> (r: Result<(), ParseError>) {
        let item = GenericItem::parse(reader, element, attribs)?;
        if item.kind == GenericItemKind::Name {
            self.common.name = item.text.clone();
        }
        add_item(&mut self.details.items, item);
        Ok(())
    }

    fn parse_text(&mut self, text: String) -> (r: Result<(), ParseError>) {
        add_item(&mut self.details.items, GenericItem::text(text));
        Ok(())
    }
}

/// The body of a `basetype` type.
pub struct BaseTypeDetails {
    pub items: Vec<GenericItem>,
}

/// `BaseTypeDetails` with its strings as character sequences.
pub ghost struct BaseTypeDetailsView {
    pub items: Seq<GenericItemView>,
}

impl DeepView for BaseTypeDetails {
    type V = BaseTypeDetailsView;

    open spec fn deep_view(&self) -> BaseTypeDetailsView {
        BaseTypeDetailsView {
            items: self.items.deep_view(),
        }
    }
}

impl BaseTypeDetails {
    /// The value before anything is read.
    pub open spec fn spec_empty() -> BaseTypeDetailsView {
        BaseTypeDetailsView {
            items: Seq::empty(),
        }
    }

    /// An empty value, to be filled in by the parser.
    pub fn empty() -> (r: BaseTypeDetails)
        ensures
            r.deep_view() == Self::spec_empty(),
    {
        BaseTypeDetails {
            items: no_items(),
        }
    }

    /// The value and the attribute map after the attributes of this part have been taken.
    pub open spec fn spec_attribs(
        acc: BaseTypeDetailsView,
        element: Seq<char>,
        attribs: AttribsView,
    ) -> Result<
        (BaseTypeDetailsView, AttribsView),
        ParseErrorView,
    > {
        Ok((acc, attribs))
    }

    /// Takes the attributes of this part from the map.
    pub fn parse_attribs(&mut self, element: &str, attribs: &mut Attribs) -> (r: Result<
        (),
        ParseError,
    >)
        ensures
            match Self::spec_attribs(old(self).deep_view(), element@, old(attribs).deep_view()) {
                Ok((acc, rest)) => r is Ok && final(self).deep_view() == acc
                    && final(attribs).deep_view() == rest,
                Err(e) => r is Err && r->Err_0.deep_view() == e,
            },
    {
        Ok(())
    }
}

/// A type of category `handle`: an object handle.
pub struct HandleType {
    pub common: TypeCommon,
    pub details: HandleDetails,
}

/// `HandleType` with its strings as character sequences.
pub ghost struct HandleTypeView {
    pub common: TypeCommonView,
    pub details: HandleDetailsView,
}

impl DeepView for HandleType {
    type V = HandleTypeView;

    open spec fn deep_view(&self) -> HandleTypeView {
        HandleTypeView {
            common: self.common.deep_view(),
            details: self.details.deep_view(),
        }
    }
}

impl GenericParse for HandleType {
    open spec fn spec_name() -> Seq<char> {
        "type"@
    }

    open spec fn spec_empty() -> HandleTypeView {
        HandleTypeView {
            common: TypeCommon::spec_empty(),
            details: HandleDetails::spec_empty(),
        }
    }

    open spec fn spec_attribs(
        acc: HandleTypeView,
        element: Seq<char>,
        attribs: AttribsView,
    ) -> Result<
        (HandleTypeView, AttribsView),
        ParseErrorView,
    > {
        match TypeCommon::spec_attribs(acc.common, element, attribs) {
            Err(e) => Err(e),
            Ok((common, a)) => {
                match HandleDetails::spec_attribs(acc.details, element, a) {
                    Err(e) => Err(e),
                    Ok((details, a)) => {
                        Ok((HandleTypeView { common, details }, a))
                    },
                }
            },
        }
    }

    open spec fn spec_child(
        acc: HandleTypeView,
        reader: ReaderView,
        element: Seq<char>,
        attribs: AttribsView,
    ) -> (Result<HandleTypeView, ParseErrorView>, ReaderView) {
        map_read(
            GenericItem::spec_read(reader, element, attribs),
            |item: GenericItemView|
                HandleTypeView {
                    common: TypeCommonView {
                        name: if item.kind == GenericItemKind::Name {
                            item.text
                        } else {
                            acc.common.name
                        },
                        ..acc.common
                    },
                    details: HandleDetailsView {
                        items: acc.details.items.push(item),
                        ..acc.details
                    },
                },
        )
    }

    open spec fn spec_text(
        acc: HandleTypeView,
        text: Seq<char>,
    ) -> Result<HandleTypeView, ParseErrorView> {
        Ok(
            HandleTypeView { details: HandleDetailsView { items: acc.details.items.push(
                GenericItemView { text, kind: GenericItemKind::Text },
            ), ..acc.details }, ..acc },
        )
    }

    fn name() -> &'static str {
        "type"
    }

    fn empty() -> HandleType {
        HandleType {
            common: TypeCommon::empty(),
            details: HandleDetails::empty(),
        }
    }

    fn parse_attribs(&mut self, element: &str, attribs: &mut Attribs) -> (r: Result<
        (),
        ParseError,
    >) {
        self.common.parse_attribs(element, attribs)?;
        self.details.parse_attribs(element, attribs)?;
        Ok(())
    }

    fn parse_child(
        &mut self,
        reader: &mut Reader,
        element: String,
        attribs: &mut Attribs,
    ) -> (r: Result<(), ParseError>) {
        let item = GenericItem::parse(reader, element, attribs)?;
        if item.kind == GenericItemKind::Name {
            self.common.name = item.text.clone();
        }
        add_item(&mut self.details.items, item);
        Ok(())
    }

    fn parse_text(&mut self, text: String) -> (r: Result<(), ParseError>) {
        add_item(&mut self.details.items, GenericItem::text(text));
        Ok(())
    }
}

/// What a `handle` type adds.
pub struct HandleDetails {
    pub parent: Option<String>,
    pub obj_type_enum: Option<String>,
    pub items: Vec<GenericItem>,
}

/// `HandleDetails` with its strings as character sequences.
pub ghost struct HandleDetailsView {
    pub parent: Option<Seq<char>>,
    pub obj_type_enum: Option<Seq<char>>,
    pub items: Seq<GenericItemView>,
}

impl DeepView for HandleDetails {
    type V = HandleDetailsView;

    open spec fn deep_view(&self) -> HandleDetailsView {
        HandleDetailsView {
            parent: self.parent.deep_view(),
            obj_type_enum: self.obj_type_enum.deep_view(),
            items: self.items.deep_view(),
        }
    }
}

impl HandleDetails {
    /// The value before anything is read.
    pub open spec fn spec_empty() -> HandleDetailsView {
        HandleDetailsView {
            parent: None,
            obj_type_enum: None,
            items: Seq::empty(),
        }
    }

    /// An empty value, to be filled in by the parser.
    pub fn empty() -> (r: HandleDetails)
        ensures
            r.deep_view() == Self::spec_empty(),
    {
        HandleDetails {
            parent: None,
            obj_type_enum: None,
            items: no_items(),
        }
    }

    /// The value and the attribute map after the attributes of this part have been taken.
    pub open spec fn spec_attribs(
        acc: HandleDetailsView,
        element: Seq<char>,
        attribs: AttribsView,
    ) -> Result<
        (HandleDetailsView, AttribsView),
        ParseErrorView,
    > {
        let (parent, a) = spec_take(attribs, "parent"@);
        let (obj_type_enum, a) = spec_take(a, "objtypeenum"@);
        Ok((HandleDetailsView { parent, obj_type_enum, ..acc }, a))
    }

    /// Takes the attributes of this part from the map.
    pub fn parse_attribs(&mut self, element: &str, attribs: &mut Attribs) -> (r: Result<
        (),
        ParseError,
    >)
        ensures
            match Self::spec_attribs(old(self).deep_view(), element@, old(attribs).deep_view()) {
                Ok((acc, rest)) => r is Ok && final(self).deep_view() == acc
                    && final(attribs).deep_view() == rest,
                Err(e) => r is Err && r->Err_0.deep_view() == e,
            },
    {
        self.parent = attribs.remove("parent");
        self.obj_type_enum = attribs.remove("objtypeenum");
        Ok(())
    }
}

/// A type of category `bitmask`: a set of flags.
pub struct BitmaskType {
    pub common: TypeCommon,
    pub details: BitmaskDetails,
}

/// `BitmaskType` with its strings as character sequences.
pub ghost struct BitmaskTypeView {
    pub common: TypeCommonView,
    pub details: BitmaskDetailsView,
}

impl DeepView for BitmaskType {
    type V = BitmaskTypeView;

    open spec fn deep_view(&self) -> BitmaskTypeView {
        BitmaskTypeView {
            common: self.common.deep_view(),
            details: self.details.deep_view(),
        }
    }
}

impl GenericParse for BitmaskType {
    open spec fn spec_name() -> Seq<char> {
        "type"@
    }

    open spec fn spec_empty() -> BitmaskTypeView {
        BitmaskTypeView {
            common: TypeCommon::spec_empty(),
            details: BitmaskDetails::spec_empty(),
        }
    }

    open spec fn spec_attribs(
        acc: BitmaskTypeView,
        element: Seq<char>,
        attribs: AttribsView,
    ) -> Result<
        (BitmaskTypeView, AttribsView),
        ParseErrorView,
    > {
        match TypeCommon::spec_attribs(acc.common, element, attribs) {
            Err(e) => Err(e),
            Ok((common, a)) => {
                match BitmaskDetails::spec_attribs(acc.details, element, a) {
                    Err(e) => Err(e),
                    Ok((details, a)) => {
                        Ok((BitmaskTypeView { common, details }, a))
                    },
                }
            },
        }
    }

    open spec fn spec_child(
        acc: BitmaskTypeView,
        reader: ReaderView,
        element: Seq<char>,
        attribs: AttribsView,
    ) -> (Result<BitmaskTypeView, ParseErrorView>, ReaderView) {
        map_read(
            GenericItem::spec_read(reader, element, attribs),
            |item: GenericItemView|
                BitmaskTypeView {
                    common: TypeCommonView {
                        name: if item.kind == GenericItemKind::Name {
                            item.text
                        } else {
                            acc.common.name
                        },
                        ..acc.common
                    },
                    details: BitmaskDetailsView {
                        items: acc.details.items.push(item),
                        ..acc.details
                    },
                },
        )
    }

    open spec fn spec_text(
        acc: BitmaskTypeView,
        text: Seq<char>,
    ) -> Result<BitmaskTypeView, ParseErrorView> {
        Ok(
            BitmaskTypeView { details: BitmaskDetailsView { items: acc.details.items.push(
                GenericItemView { text, kind: GenericItemKind::Text },
            ), ..acc.details }, ..acc },
        )
    }

    fn name() -> &'static str {
        "type"
    }

    fn empty() -> BitmaskType {
        BitmaskType {
            common: TypeCommon::empty(),
            details: BitmaskDetails::empty(),
        }
    }

    fn parse_attribs(&mut self, element: &str, attribs: &mut Attribs) -> (r: Result<
        (),
        ParseError,
    >) {
        self.common.parse_attribs(element, attribs)?;
        self.details.parse_attribs(element, attribs)?;
        Ok(())
    }

    fn parse_child(
        &mut self,
        reader: &mut Reader,
        element: String,
        attribs: &mut Attribs,
    ) -> (r: Result<(), ParseError>) {
        let item = GenericItem::parse(reader, element, attribs)?;
        if item.kind == GenericItemKind::Name {
            self.common.name = item.text.clone();
        }
        add_item(&mut self.details.items, item);
        Ok(())
    }

    fn parse_text(&mut self, text: String) -> (r: Result<(), ParseError>) {
        add_item(&mut self.details.items, GenericItem::text(text));
        Ok(())
    }
}

/// What a `bitmask` type adds.
pub struct BitmaskDetails {
    pub bit_values: Option<String>,
    pub items: Vec<GenericItem>,
}

/// `BitmaskDetails` with its strings as character sequences.
pub ghost struct BitmaskDetailsView {
    pub bit_values: Option<Seq<char>>,
    pub items: Seq<GenericItemView>,
}

impl DeepView for BitmaskDetails {
    type V = BitmaskDetailsView;

    open spec fn deep_view(&self) -> BitmaskDetailsView {
        BitmaskDetailsView {
            bit_values: self.bit_values.deep_view(),
            items: self.items.deep_view(),
        }
    }
}

impl BitmaskDetails {
    /// The value before anything is read.
    pub open spec fn spec_empty() -> BitmaskDetailsView {
        BitmaskDetailsView {
            bit_values: None,
            items: Seq::empty(),
        }
    }

    /// An empty value, to be filled in by the parser.
    pub fn empty() -> (r: BitmaskDetails)
        ensures
            r.deep_view() == Self::spec_empty(),
    {
        BitmaskDetails {
            bit_values: None,
            items: no_items(),
        }
    }

    /// The value and the attribute map after the attributes of this part have been taken.
    pub open spec fn spec_attribs(
        acc: BitmaskDetailsView,
        element: Seq<char>,
        attribs: AttribsView,
    ) -> Result<
        (BitmaskDetailsView, AttribsView),
        ParseErrorView,
    > {
        let (bit_values, a) = spec_take(attribs, "bitvalues"@);
        Ok((BitmaskDetailsView { bit_values, ..acc }, a))
    }

    /// Takes the attributes of this part from the map.
    pub fn parse_attribs(&mut self, element: &str, attribs: &mut Attribs) -> (r: Result<
        (),
        ParseError,
    >)
        ensures
            match Self::spec_attribs(old(self).deep_view(), element@, old(attribs).deep_view()) {
                Ok((acc, rest)) => r is Ok && final(self).deep_view() == acc
                    && final(attribs).deep_view() == rest,
                Err(e) => r is Err && r->Err_0.deep_view() == e,
            },
    {
        self.bit_values = attribs.remove("bitvalues");
        Ok(())
    }
}

/// A type of category `enum`. Its values stand elsewhere.
pub struct EnumType {
    pub common: TypeCommon,
    pub details: EnumTypeDetails,
}

/// `EnumType` with its strings as character sequences.
pub ghost struct EnumTypeView {
    pub common: TypeCommonView,
    pub details: EnumTypeDetailsView,
}

impl DeepView for EnumType {
    type V = EnumTypeView;

    open spec fn deep_view(&self) -> EnumTypeView {
        EnumTypeView {
            common: self.common.deep_view(),
            details: self.details.deep_view(),
        }
    }
}

impl GenericParse for EnumType {
    open spec fn spec_name() -> Seq<char> {
        "type"@
    }

    open spec fn spec_empty() -> EnumTypeView {
        EnumTypeView {
            common: TypeCommon::spec_empty(),
            details: EnumTypeDetails::spec_empty(),
        }
    }

    open spec fn spec_attribs(
        acc: EnumTypeView,
        element: Seq<char>,
        attribs: AttribsView,
    ) -> Result<
        (EnumTypeView, AttribsView),
        ParseErrorView,
    > {
        match TypeCommon::spec_attribs(acc.common, element, attribs) {
            Err(e) => Err(e),
            Ok((common, a)) => {
                match EnumTypeDetails::spec_attribs(acc.details, element, a) {
                    Err(e) => Err(e),
                    Ok((details, a)) => {
                        Ok((EnumTypeView { common, details }, a))
                    },
                }
            },
        }
    }

    open spec fn spec_child(
        acc: EnumTypeView,
        reader: ReaderView,
        element: Seq<char>,
        attribs: AttribsView,
    ) -> (Result<EnumTypeView, ParseErrorView>, ReaderView) {
        (Err(ParseErrorView::BadChild(Self::spec_name(), element)), reader)
    }

    open spec fn spec_text(
        acc: EnumTypeView,
        text: Seq<char>,
    ) -> Result<EnumTypeView, ParseErrorView> {
        Err(ParseErrorView::BadContent(Self::spec_name(), text))
    }

    fn name() -> &'static str {
        "type"
    }

    fn empty() -> EnumType {
        EnumType {
            common: TypeCommon::empty(),
            details: EnumTypeDetails::empty(),
        }
    }

    fn parse_attribs(&mut self, element: &str, attribs: &mut Attribs) -> (r: Result<
        (),
        ParseError,
    >) {
        self.common.parse_attribs(element, attribs)?;
        self.details.parse_attribs(element, attribs)?;
        Ok(())
    }

    fn parse_child(
        &mut self,
        reader: &mut Reader,
        element: String,
        attribs: &mut Attribs,
    ) -> (r: Result<(), ParseError>) {
        Err(ParseError::BadChild(String::from_str("type"), element))
    }

    fn parse_text(&mut self, text: String) -> (r: Result<(), ParseError>) {
        Err(ParseError::BadContent(String::from_str("type"), text))
    }
}

/// The body of an `enum` type: nothing.
pub struct EnumTypeDetails {}

/// `EnumTypeDetails` with its strings as character sequences.
pub ghost struct EnumTypeDetailsView {}

impl DeepView for EnumTypeDetails {
    type V = EnumTypeDetailsView;

    open spec fn deep_view(&self) -> EnumTypeDetailsView {
        EnumTypeDetailsView {}
    }
}

impl EnumTypeDetails {
    /// The value before anything is read.
    pub open spec fn spec_empty() -> EnumTypeDetailsView {
        EnumTypeDetailsView {}
    }

    /// An empty value, to be filled in by the parser.
    pub fn empty() -> (r: EnumTypeDetails)
        ensures
            r.deep_view() == Self::spec_empty(),
    {
        EnumTypeDetails {}
    }

    /// The value and the attribute map after the attributes of this part have been taken.
    pub open spec fn spec_attribs(
        acc: EnumTypeDetailsView,
        element: Seq<char>,
        attribs: AttribsView,
    ) -> Result<
        (EnumTypeDetailsView, AttribsView),
        ParseErrorView,
    > {
        Ok((acc, attribs))
    }

    /// Takes the attributes of this part from the map.
    pub fn parse_attribs(&mut self, element: &str, attribs: &mut Attribs) -> (r: Result<
        (),
        ParseError,
    >)
        ensures
            match Self::spec_attribs(old(self).deep_view(), element@, old(attribs).deep_view()) {
                Ok((acc, rest)) => r is Ok && final(self).deep_view() == acc
                    && final(attribs).deep_view() == rest,
                Err(e) => r is Err && r->Err_0.deep_view() == e,
            },
    {
        Ok(())
    }
}

/// A type of category `funcpointer`: a function pointer.
pub struct FnPtrType {
    pub common: TypeCommon,
    pub details: FnPtrDetails,
}

/// `FnPtrType` with its strings as character sequences.
pub ghost struct FnPtrTypeView {
    pub common: TypeCommonView,
    pub details: FnPtrDetailsView,
}

impl DeepView for FnPtrType {
    type V = FnPtrTypeView;

    open spec fn deep_view(&self) -> FnPtrTypeView {
        FnPtrTypeView {
            common: self.common.deep_view(),
            details: self.details.deep_view(),
        }
    }
}

impl GenericParse for FnPtrType {
    open spec fn spec_name() -> Seq<char> {
        "type"@
    }

    open spec fn spec_empty() -> FnPtrTypeView {
        FnPtrTypeView {
            common: TypeCommon::spec_empty(),
            details: FnPtrDetails::spec_empty(),
        }
    }

    open spec fn spec_attribs(
        acc: FnPtrTypeView,
        element: Seq<char>,
        attribs: AttribsView,
    ) -> Result<
        (FnPtrTypeView, AttribsView),
        ParseErrorView,
    > {
        match TypeCommon::spec_attribs(acc.common, element, attribs) {
            Err(e) => Err(e),
            Ok((common, a)) => {
                match FnPtrDetails::spec_attribs(acc.details, element, a) {
                    Err(e) => Err(e),
                    Ok((details, a)) => {
                        Ok((FnPtrTypeView { common, details }, a))
                    },
                }
            },
        }
    }

    open spec fn spec_child(
        acc: FnPtrTypeView,
        reader: ReaderView,
        element: Seq<char>,
        attribs: AttribsView,
    ) -> (Result<FnPtrTypeView, ParseErrorView>, ReaderView) {
        map_read(
            GenericItem::spec_read(reader, element, attribs),
            |item: GenericItemView|
                FnPtrTypeView {
                    common: TypeCommonView {
                        name: if item.kind == GenericItemKind::Name {
                            item.text
                        } else {
                            acc.common.name
                        },
                        ..acc.common
                    },
                    details: FnPtrDetailsView { items: acc.details.items.push(item) },
                },
        )
    }

    open spec fn spec_text(
        acc: FnPtrTypeView,
        text: Seq<char>,
    ) -> Result<FnPtrTypeView, ParseErrorView> {
        Ok(
            FnPtrTypeView { details: FnPtrDetailsView { items: acc.details.items.push(
                GenericItemView { text, kind: GenericItemKind::Text },
            ) }, ..acc },
        )
    }

    fn name() -> &'static str {
        "type"
    }

    fn empty() -> FnPtrType {
        FnPtrType {
            common: TypeCommon::empty(),
            details: FnPtrDetails::empty(),
        }
    }

    fn parse_attribs(&mut self, element: &str, attribs: &mut Attribs) -> (r: Result<
        (),
        ParseError,
    >) {
        self.common.parse_attribs(element, attribs)?;
        self.details.parse_attribs(element, attribs)?;
        Ok(())
    }

    fn parse_child(
        &mut self,
        reader: &mut Reader,
        element: String,
        attribs: &mut Attribs,
    ) -> (r: Result<(), ParseError>) {
        let item = GenericItem::parse(reader, element, attribs)?;
        if item.kind == GenericItemKind::Name {
            self.common.name = item.text.clone();
        }
        add_item(&mut self.details.items, item);
        Ok(())
    }

    fn parse_text(&mut self, text: String) -> (r: Result<(), ParseError>) {
        add_item(&mut self.details.items, GenericItem::text(text));
        Ok(())
    }
}

/// The body of a `funcpointer` type.
pub struct FnPtrDetails {
    pub items: Vec<GenericItem>,
}

/// `FnPtrDetails` with its strings as character sequences.
pub ghost struct FnPtrDetailsView {
    pub items: Seq<GenericItemView>,
}

impl DeepView for FnPtrDetails {
    type V = FnPtrDetailsView;

    open spec fn deep_view(&self) -> FnPtrDetailsView {
        FnPtrDetailsView {
            items: self.items.deep_view(),
        }
    }
}

impl FnPtrDetails {
    /// The value before anything is read.
    pub open spec fn spec_empty() -> FnPtrDetailsView {
        FnPtrDetailsView {
            items: Seq::empty(),
        }
    }

    /// An empty value, to be filled in by the parser.
    pub fn empty() -> (r: FnPtrDetails)
        ensures
            r.deep_view() == Self::spec_empty(),
    {
        FnPtrDetails {
            items: no_items(),
        }
    }

    /// The value and the attribute map after the attributes of this part have been taken.
    pub open spec fn spec_attribs(
        acc: FnPtrDetailsView,
        element: Seq<char>,
        attribs: AttribsView,
    ) -> Result<
        (FnPtrDetailsView, AttribsView),
        ParseErrorView,
    > {
        Ok((acc, attribs))
    }

    /// Takes the attributes of this part from the map.
    pub fn parse_attribs(&mut self, element: &str, attribs: &mut Attribs) -> (r: Result<
        (),
        ParseError,
    >)
        ensures
            match Self::spec_attribs(old(self).deep_view(), element@, old(attribs).deep_view()) {
                Ok((acc, rest)) => r is Ok && final(self).deep_view() == acc
                    && final(attribs).deep_view() == rest,
                Err(e) => r is Err && r->Err_0.deep_view() == e,
            },
    {
        Ok(())
    }
}

/// A type of category `struct`.
pub struct StructType {
    pub common: TypeCommon,
    pub details: StructDetails,
}

/// `StructType` with its strings as character sequences.
pub ghost struct StructTypeView {
    pub common: TypeCommonView,
    pub details: StructDetailsView,
}

impl DeepView for StructType {
    type V = StructTypeView;

    open spec fn deep_view(&self) -> StructTypeView {
        StructTypeView {
            common: self.common.deep_view(),
            details: self.details.deep_view(),
        }
    }
}

impl GenericParse for StructType {
    open spec fn spec_name() -> Seq<char> {
        "type"@
    }

    open spec fn spec_empty() -> StructTypeView {
        StructTypeView {
            common: TypeCommon::spec_empty(),
            details: StructDetails::spec_empty(),
        }
    }

    open spec fn spec_attribs(
        acc: StructTypeView,
        element: Seq<char>,
        attribs: AttribsView,
    ) -> Result<
        (StructTypeView, AttribsView),
        ParseErrorView,
    > {
        match TypeCommon::spec_attribs(acc.common, element, attribs) {
            Err(e) => Err(e),
            Ok((common, a)) => {
                match StructDetails::spec_attribs(acc.details, element, a) {
                    Err(e) => Err(e),
                    Ok((details, a)) => {
                        Ok((StructTypeView { common, details }, a))
                    },
                }
            },
        }
    }

    open spec fn spec_child(
        acc: StructTypeView,
        reader: ReaderView,
        element: Seq<char>,
        attribs: AttribsView,
    ) -> (Result<StructTypeView, ParseErrorView>, ReaderView) {
        map_read(
            StructItem::spec_read(reader, element, attribs),
            |item: StructItemView| StructTypeView {
                details: StructDetailsView {
                    members: acc.details.members.push(item),
                    ..acc.details
                },
                ..acc
            },
        )
    }

    open spec fn spec_text(
        acc: StructTypeView,
        text: Seq<char>,
    ) -> Result<StructTypeView, ParseErrorView> {
        Err(ParseErrorView::BadContent(Self::spec_name(), text))
    }

    fn name() -> &'static str {
        "type"
    }

    fn empty() -> StructType {
        StructType {
            common: TypeCommon::empty(),
            details: StructDetails::empty(),
        }
    }

    fn parse_attribs(&mut self, element: &str, attribs: &mut Attribs) -> (r: Result<
        (),
        ParseError,
    >) {
        self.common.parse_attribs(element, attribs)?;
        self.details.parse_attribs(element, attribs)?;
        Ok(())
    }

    fn parse_child(
        &mut self,
        reader: &mut Reader,
        element: String,
        attribs: &mut Attribs,
    ) -> (r: Result<(), ParseError>) {
        let item = StructItem::parse(reader, element, attribs)?;
        add_item(&mut self.details.members, item);
        Ok(())
    }

    fn parse_text(&mut self, text: String) -> (r: Result<(), ParseError>) {
        Err(ParseError::BadContent(String::from_str("type"), text))
    }
}

/// What a `struct` type adds.
pub struct StructDetails {
    pub returned_only: Option<bool>,
    pub allow_duplicate: Option<bool>,
    pub extends: Option<Vec<String>>,
    pub members: Vec<StructItem>,
}

/// `StructDetails` with its strings as character sequences.
pub ghost struct StructDetailsView {
    pub returned_only: Option<bool>,
    pub allow_duplicate: Option<bool>,
    pub extends: Option<Seq<Seq<char>>>,
    pub members: Seq<StructItemView>,
}

impl DeepView for StructDetails {
    type V = StructDetailsView;

    open spec fn deep_view(&self) -> StructDetailsView {
        StructDetailsView {
            returned_only: self.returned_only.deep_view(),
            allow_duplicate: self.allow_duplicate.deep_view(),
            extends: self.extends.deep_view(),
            members: self.members.deep_view(),
        }
    }
}

impl StructDetails {
    /// The value before anything is read.
    pub open spec fn spec_empty() -> StructDetailsView {
        StructDetailsView {
            returned_only: None,
            allow_duplicate: None,
            extends: None,
            members: Seq::empty(),
        }
    }

    /// An empty value, to be filled in by the parser.
    pub fn empty() -> (r: StructDetails)
        ensures
            r.deep_view() == Self::spec_empty(),
    {
        StructDetails {
            returned_only: None,
            allow_duplicate: None,
            extends: None,
            members: no_items(),
        }
    }

    /// The value and the attribute map after the attributes of this part have been taken.
    pub open spec fn spec_attribs(
        acc: StructDetailsView,
        element: Seq<char>,
        attribs: AttribsView,
    ) -> Result<
        (StructDetailsView, AttribsView),
        ParseErrorView,
    > {
        match spec_try_get::<bool>(attribs, element, "allowduplicate"@) {
            Err(e) => Err(e),
            Ok((allow_duplicate, a)) => {
                match spec_try_get::<bool>(a, element, "returnedonly"@) {
                    Err(e) => Err(e),
                    Ok((returned_only, a)) => {
                        let (extends, a) = spec_take_list(a, "structextends"@);
                        Ok(
                            (
                                StructDetailsView {
                                    allow_duplicate,
                                    returned_only,
                                    extends,
                                    ..acc
                                },
                                a,
                            ),
                        )
                    },
                }
            },
        }
    }

    /// Takes the attributes of this part from the map.
    pub fn parse_attribs(&mut self, element: &str, attribs: &mut Attribs) -> (r: Result<
        (),
        ParseError,
    >)
        ensures
            match Self::spec_attribs(old(self).deep_view(), element@, old(attribs).deep_view()) {
                Ok((acc, rest)) => r is Ok && final(self).deep_view() == acc
                    && final(attribs).deep_view() == rest,
                Err(e) => r is Err && r->Err_0.deep_view() == e,
            },
    {
        self.allow_duplicate = attribs.try_get::<bool>(element, "allowduplicate")?;
        self.returned_only = attribs.try_get::<bool>(element, "returnedonly")?;
        self.extends = attribs.remove_list("structextends");
        Ok(())
    }
}

/// A type of category `union`.
pub struct UnionType {
    pub common: TypeCommon,
    pub details: UnionDetails,
}

/// `UnionType` with its strings as character sequences.
pub ghost struct UnionTypeView {
    pub common: TypeCommonView,
    pub details: UnionDetailsView,
}

impl DeepView for UnionType {
    type V = UnionTypeView;

    open spec fn deep_view(&self) -> UnionTypeView {
        UnionTypeView {
            common: self.common.deep_view(),
            details: self.details.deep_view(),
        }
    }
}

impl GenericParse for UnionType {
    open spec fn spec_name() -> Seq<char> {
        "type"@
    }

    open spec fn spec_empty() -> UnionTypeView {
        UnionTypeView {
            common: TypeCommon::spec_empty(),
            details: UnionDetails::spec_empty(),
        }
    }

    open spec fn spec_attribs(
        acc: UnionTypeView,
        element: Seq<char>,
        attribs: AttribsView,
    ) -> Result<
        (UnionTypeView, AttribsView),
        ParseErrorView,
    > {
        match TypeCommon::spec_attribs(acc.common, element, attribs) {
            Err(e) => Err(e),
            Ok((common, a)) => {
                match UnionDetails::spec_attribs(acc.details, element, a) {
                    Err(e) => Err(e),
                    Ok((details, a)) => {
                        Ok((UnionTypeView { common, details }, a))
                    },
                }
            },
        }
    }

    open spec fn spec_child(
        acc: UnionTypeView,
        reader: ReaderView,
        element: Seq<char>,
        attribs: AttribsView,
    ) -> (Result<UnionTypeView, ParseErrorView>, ReaderView) {
        map_read(
            StructItem::spec_read(reader, element, attribs),
            |item: StructItemView| UnionTypeView {
                details: UnionDetailsView {
                    members: acc.details.members.push(item),
                    ..acc.details
                },
                ..acc
            },
        )
    }

    open spec fn spec_text(
        acc: UnionTypeView,
        text: Seq<char>,
    ) -> Result<UnionTypeView, ParseErrorView> {
        Err(ParseErrorView::BadContent(Self::spec_name(), text))
    }

    fn name() -> &'static str {
        "type"
    }

    fn empty() -> UnionType {
        UnionType {
            common: TypeCommon::empty(),
            details: UnionDetails::empty(),
        }
    }

    fn parse_attribs(&mut self, element: &str, attribs: &mut Attribs) -> (r: Result<
        (),
        ParseError,
    >) {
        self.common.parse_attribs(element, attribs)?;
        self.details.parse_attribs(element, attribs)?;
        Ok(())
    }

    fn parse_child(
        &mut self,
        reader: &mut Reader,
        element: String,
        attribs: &mut Attribs,
    ) -> (r: Result<(), ParseError>) {
        let item = StructItem::parse(reader, element, attribs)?;
        add_item(&mut self.details.members, item);
        Ok(())
    }

    fn parse_text(&mut self, text: String) -> (r: Result<(), ParseError>) {
        Err(ParseError::BadContent(String::from_str("type"), text))
    }
}

/// What a `union` type adds.
pub struct UnionDetails {
    pub returned_only: Option<bool>,
    pub members: Vec<StructItem>,
}

/// `UnionDetails` with its strings as character sequences.
pub ghost struct UnionDetailsView {
    pub returned_only: Option<bool>,
    pub members: Seq<StructItemView>,
}

impl DeepView for UnionDetails {
    type V = UnionDetailsView;

    open spec fn deep_view(&self) -> UnionDetailsView {
        UnionDetailsView {
            returned_only: self.returned_only.deep_view(),
            members: self.members.deep_view(),
        }
    }
}

impl UnionDetails {
    /// The value before anything is read.
    pub open spec fn spec_empty() -> UnionDetailsView {
        UnionDetailsView {
            returned_only: None,
            members: Seq::empty(),
        }
    }

    /// An empty value, to be filled in by the parser.
    pub fn empty() -> (r: UnionDetails)
        ensures
            r.deep_view() == Self::spec_empty(),
    {
        UnionDetails {
            returned_only: None,
            members: no_items(),
        }
    }

    /// The value and the attribute map after the attributes of this part have been taken.
    pub open spec fn spec_attribs(
        acc: UnionDetailsView,
        element: Seq<char>,
        attribs: AttribsView,
    ) -> Result<
        (UnionDetailsView, AttribsView),
        ParseErrorView,
    > {
        match spec_try_get::<bool>(attribs, element, "returnedonly"@) {
            Err(e) => Err(e),
            Ok((returned_only, a)) => {
                Ok((UnionDetailsView { returned_only, ..acc }, a))
            },
        }
    }

    /// Takes the attributes of this part from the map.
    pub fn parse_attribs(&mut self, element: &str, attribs: &mut Attribs) -> (r: Result<
        (),
        ParseError,
    >)
        ensures
            match Self::spec_attribs(old(self).deep_view(), element@, old(attribs).deep_view()) {
                Ok((acc, rest)) => r is Ok && final(self).deep_view() == acc
                    && final(attribs).deep_view() == rest,
                Err(e) => r is Err && r->Err_0.deep_view() == e,
            },
    {
        self.returned_only = attribs.try_get::<bool>(element, "returnedonly")?;
        Ok(())
    }
}

/// A type without a category: one that a header outside the registry declares.
pub struct ImportedType {
    pub common: TypeCommon,
    pub details: ImportedDetails,
}

/// `ImportedType` with its strings as character sequences.
pub ghost struct ImportedTypeView {
    pub common: TypeCommonView,
    pub details: ImportedDetailsView,
}

impl DeepView for ImportedType {
    type V = ImportedTypeView;

    open spec fn deep_view(&self) -> ImportedTypeView {
        ImportedTypeView {
            common: self.common.deep_view(),
            details: self.details.deep_view(),
        }
    }
}

impl GenericParse for ImportedType {
    open spec fn spec_name() -> Seq<char> {
        "type"@
    }

    open spec fn spec_empty() -> ImportedTypeView {
        ImportedTypeView {
            common: TypeCommon::spec_empty(),
            details: ImportedDetails::spec_empty(),
        }
    }

    open spec fn spec_attribs(
        acc: ImportedTypeView,
        element: Seq<char>,
        attribs: AttribsView,
    ) -> Result<
        (ImportedTypeView, AttribsView),
        ParseErrorView,
    > {
        match TypeCommon::spec_attribs(acc.common, element, attribs) {
            Err(e) => Err(e),
            Ok((common, a)) => {
                match ImportedDetails::spec_attribs(acc.details, element, a) {
                    Err(e) => Err(e),
                    Ok((details, a)) => {
                        Ok((ImportedTypeView { common, details }, a))
                    },
                }
            },
        }
    }

    open spec fn spec_child(
        acc: ImportedTypeView,
        reader: ReaderView,
        element: Seq<char>,
        attribs: AttribsView,
    ) -> (Result<ImportedTypeView, ParseErrorView>, ReaderView) {
        (Err(ParseErrorView::BadChild(Self::spec_name(), element)), reader)
    }

    open spec fn spec_text(
        acc: ImportedTypeView,
        text: Seq<char>,
    ) -> Result<ImportedTypeView, ParseErrorView> {
        Err(ParseErrorView::BadContent(Self::spec_name(), text))
    }

    fn name() -> &'static str {
        "type"
    }

    fn empty() -> ImportedType {
        ImportedType {
            common: TypeCommon::empty(),
            details: ImportedDetails::empty(),
        }
    }

    fn parse_attribs(&mut self, element: &str, attribs: &mut Attribs) -> (r: Result<
        (),
        ParseError,
    >) {
        self.common.parse_attribs(element, attribs)?;
        self.details.parse_attribs(element, attribs)?;
        Ok(())
    }

    fn parse_child(
        &mut self,
        reader: &mut Reader,
        element: String,
        attribs: &mut Attribs,
    ) -> (r: Result<(), ParseError>) {
        Err(ParseError::BadChild(String::from_str("type"), element))
    }

    fn parse_text(&mut self, text: String) -> (r: Result<(), ParseError>) {
        Err(ParseError::BadContent(String::from_str("type"), text))
    }
}

/// The body of an imported type: nothing.
pub struct ImportedDetails {}

/// `ImportedDetails` with its strings as character sequences.
pub ghost struct ImportedDetailsView {}

impl DeepView for ImportedDetails {
    type V = ImportedDetailsView;

    open spec fn deep_view(&self) -> ImportedDetailsView {
        ImportedDetailsView {}
    }
}

impl ImportedDetails {
    /// The value before anything is read.
    pub open spec fn spec_empty() -> ImportedDetailsView {
        ImportedDetailsView {}
    }

    /// An empty value, to be filled in by the parser.
    pub fn empty() -> (r: ImportedDetails)
        ensures
            r.deep_view() == Self::spec_empty(),
    {
        ImportedDetails {}
    }

    /// The value and the attribute map after the attributes of this part have been taken.
    pub open spec fn spec_attribs(
        acc: ImportedDetailsView,
        element: Seq<char>,
        attribs: AttribsView,
    ) -> Result<
        (ImportedDetailsView, AttribsView),
        ParseErrorView,
    > {
        Ok((acc, attribs))
    }

    /// Takes the attributes of this part from the map.
    pub fn parse_attribs(&mut self, element: &str, attribs: &mut Attribs) -> (r: Result<
        (),
        ParseError,
    >)
        ensures
            match Self::spec_attribs(old(self).deep_view(), element@, old(attribs).deep_view()) {
                Ok((acc, rest)) => r is Ok && final(self).deep_view() == acc
                    && final(attribs).deep_view() == rest,
                Err(e) => r is Err && r->Err_0.deep_view() == e,
            },
    {
        Ok(())
    }
}

/// A child of a `struct` or `union` type.
pub enum StructItem {
    Comment(Comment),
    Member(Member),
}

/// `StructItem` with its strings as character sequences.
pub ghost enum StructItemView {
    Comment(CommentView),
    Member(MemberView),
}

impl DeepView for StructItem {
    type V = StructItemView;

    open spec fn deep_view(&self) -> StructItemView {
        match *self {
            StructItem::Comment(x) => StructItemView::Comment(x.deep_view()),
            StructItem::Member(x) => StructItemView::Member(x.deep_view()),
        }
    }
}

impl Parse for StructItem {
    open spec fn spec_read(reader: ReaderView, element: Seq<char>, attribs: AttribsView) -> (
        Result<StructItemView, ParseErrorView>,
        ReaderView,
    ) {
        if element == "comment"@ {
            map_read(
                Comment::spec_read(reader, element, attribs),
                |x: CommentView| StructItemView::Comment(x),
            )
        } else if element == "member"@ {
            map_read(
                Member::spec_read(reader, element, attribs),
                |x: MemberView| StructItemView::Member(x),
            )
        } else {
            (Err(ParseErrorView::BadChild("type"@, element)), reader)
        }
    }

    fn parse(reader: &mut Reader, element: String, attribs: &mut Attribs) -> (r: Result<
        StructItem,
        ParseError,
    >) {
        if str_eq(element.as_str(), "comment") {
            Ok(StructItem::Comment(Comment::parse(reader, element, attribs)?))
        } else if str_eq(element.as_str(), "member") {
            Ok(StructItem::Member(Member::parse(reader, element, attribs)?))
        } else {
            Err(ParseError::BadChild(String::from_str("type"), element))
        }
    }
}

/// A member of a structure or union.
pub struct Member {
    pub name: String,
    pub api: Option<String>,
    pub values: Option<Vec<String>>,
    pub optional: Option<Vec<bool>>,
    pub deprecated: Option<Deprecation>,
    pub no_auto_validity: Option<bool>,
    pub extern_sync: Option<bool>,
    pub limit_type: Option<Vec<LimitType>>,
    pub len: Option<Vec<Len>>,
    pub object_type: Option<String>,
    pub selection: Option<String>,
    pub selector: Option<String>,
    pub items: Vec<GenericItem>,
    pub comment: Option<String>,
}

/// `Member` with its strings as character sequences.
pub ghost struct MemberView {
    pub name: Seq<char>,
    pub api: Option<Seq<char>>,
    pub values: Option<Seq<Seq<char>>>,
    pub optional: Option<Seq<bool>>,
    pub deprecated: Option<Deprecation>,
    pub no_auto_validity: Option<bool>,
    pub extern_sync: Option<bool>,
    pub limit_type: Option<Seq<LimitType>>,
    pub len: Option<Seq<LenView>>,
    pub object_type: Option<Seq<char>>,
    pub selection: Option<Seq<char>>,
    pub selector: Option<Seq<char>>,
    pub items: Seq<GenericItemView>,
    pub comment: Option<Seq<char>>,
}

impl DeepView for Member {
    type V = MemberView;

    open spec fn deep_view(&self) -> MemberView {
        MemberView {
            name: self.name.deep_view(),
            api: self.api.deep_view(),
            values: self.values.deep_view(),
            optional: self.optional.deep_view(),
            deprecated: self.deprecated.deep_view(),
            no_auto_validity: self.no_auto_validity.deep_view(),
            extern_sync: self.extern_sync.deep_view(),
            limit_type: self.limit_type.deep_view(),
            len: self.len.deep_view(),
            object_type: self.object_type.deep_view(),
            selection: self.selection.deep_view(),
            selector: self.selector.deep_view(),
            items: self.items.deep_view(),
            comment: self.comment.deep_view(),
        }
    }
}

impl GenericParse for Member {
    open spec fn spec_name() -> Seq<char> {
        "member"@
    }

    open spec fn spec_empty() -> MemberView {
        MemberView {
            name: Seq::empty(),
            api: None,
            values: None,
            optional: None,
            deprecated: None,
            no_auto_validity: None,
            extern_sync: None,
            limit_type: None,
            len: None,
            object_type: None,
            selection: None,
            selector: None,
            items: Seq::empty(),
            comment: None,
        }
    }

    open spec fn spec_attribs(acc: MemberView, element: Seq<char>, attribs: AttribsView) -> Result<
        (MemberView, AttribsView),
        ParseErrorView,
    > {
        let (api, a) = spec_take(attribs, "api"@);
        let (values, a) = spec_take_list(a, "values"@);
        match spec_try_get_list::<bool>(a, element, "optional"@) {
            Err(e) => Err(e),
            Ok((optional, a)) => {
                match spec_try_get::<Deprecation>(a, element, "deprecated"@) {
                    Err(e) => Err(e),
                    Ok((deprecated, a)) => {
                        match spec_try_get::<bool>(a, element, "noautovalidity"@) {
                            Err(e) => Err(e),
                            Ok((no_auto_validity, a)) => {
                                match spec_try_get::<bool>(a, element, "externsync"@) {
                                    Err(e) => Err(e),
                                    Ok((extern_sync, a)) => {
                                        let (limit_type, a) = spec_take(a, "limittype"@);
                                        match LimitType::spec_from_attrib(limit_type) {
                                            Err(v) => Err(
                                                ParseErrorView::BadAttrib(
                                                    "member"@,
                                                    "limittype"@,
                                                    v,
                                                ),
                                            ),
                                            Ok(limit_type) => {
                                                let (len, a) = spec_take(a, "len"@);
                                                let (alt_len, a) = spec_take(a, "altlen"@);
                                                let len = Len::spec_from_attribs(len, alt_len);
                                                let (object_type, a) = spec_take(a, "objecttype"@);
                                                let (selection, a) = spec_take(a, "selection"@);
                                                let (selector, a) = spec_take(a, "selector"@);
                                                let (comment, a) = spec_take(a, "comment"@);
                                                Ok(
                                                    (
                                                        MemberView {
                                                            api,
                                                            values,
                                                            optional,
                                                            deprecated,
                                                            no_auto_validity,
                                                            extern_sync,
                                                            limit_type,
                                                            len,
                                                            object_type,
                                                            selection,
                                                            selector,
                                                            comment,
                                                            ..acc
                                                        },
                                                        a,
                                                    ),
                                                )
                                            },
                                        }
                                    },
                                }
                            },
                        }
                    },
                }
            },
        }
    }

    open spec fn spec_child(
        acc: MemberView,
        reader: ReaderView,
        element: Seq<char>,
        attribs: AttribsView,
    ) -> (Result<MemberView, ParseErrorView>, ReaderView) {
        map_read(
            GenericItem::spec_read(reader, element, attribs),
            |item: GenericItemView|
                MemberView {
                    name: if item.kind == GenericItemKind::Name { item.text } else { acc.name },
                    items: acc.items.push(item),
                    ..acc
                },
        )
    }

    open spec fn spec_text(acc: MemberView, text: Seq<char>) -> Result<MemberView, ParseErrorView> {
        Ok(
            MemberView { items: acc.items.push(
                GenericItemView { text, kind: GenericItemKind::Text },
            ), ..acc },
        )
    }

    fn name() -> &'static str {
        "member"
    }

    fn empty() -> Member {
        Member {
            name: String::new(),
            api: None,
            values: None,
            optional: None,
            deprecated: None,
            no_auto_validity: None,
            extern_sync: None,
            limit_type: None,
            len: None,
            object_type: None,
            selection: None,
            selector: None,
            items: no_items(),
            comment: None,
        }
    }

    fn parse_attribs(&mut self, element: &str, attribs: &mut Attribs) -> (r: Result<
        (),
        ParseError,
    >) {
        self.api = attribs.remove("api");
        self.values = attribs.remove_list("values");
        self.optional = attribs.try_get_list::<bool>(element, "optional")?;
        self.deprecated = attribs.try_get::<Deprecation>(element, "deprecated")?;
        self.no_auto_validity = attribs.try_get::<bool>(element, "noautovalidity")?;
        self.extern_sync = attribs.try_get::<bool>(element, "externsync")?;
        self.limit_type = match LimitType::from_attrib(attribs.remove("limittype")) {
            Ok(v) => v,
            Err(value) => {
                return Err(
                    ParseError::BadAttrib(
                        String::from_str("member"),
                        String::from_str("limittype"),
                        value,
                    ),
                );
            },
        };
        let len = attribs.remove("len");
        let alt_len = attribs.remove("altlen");
        self.len = Len::from_attribs(len, alt_len);
        self.object_type = attribs.remove("objecttype");
        self.selection = attribs.remove("selection");
        self.selector = attribs.remove("selector");
        self.comment = attribs.remove("comment");
        Ok(())
    }

    fn parse_child(
        &mut self,
        reader: &mut Reader,
        element: String,
        attribs: &mut Attribs,
    ) -> (r: Result<(), ParseError>) {
        let item = GenericItem::parse(reader, element, attribs)?;
        if item.kind == GenericItemKind::Name {
            self.name = item.text.clone();
        }
        add_item(&mut self.items, item);
        Ok(())
    }

    fn parse_text(&mut self, text: String) -> (r: Result<(), ParseError>) {
        add_item(&mut self.items, GenericItem::text(text));
        Ok(())
    }
}

} // verus!
