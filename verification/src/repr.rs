//! The indexed registry: what the linker makes of the parsed document.
//!
//! Types, commands and features stand in tables and refer to one another by handle. A handle
//! is the place of an entry in its table, counted from one; it is given out once and stays
//! valid for as long as the registry lives.

use vstd::prelude::*;
use crate::attribs::FromText;
use crate::parse::values::EnumsType;
use crate::text::str_eq;

verus! {

/// How far an item is deprecated.
#[derive(Debug, Clone, Copy, PartialEq, Eq, Structural)]
pub enum Deprecation {
    False,
    True,
    Aliased,
    Ignored,
}

impl DeepView for Deprecation {
    type V = Deprecation;

    open spec fn deep_view(&self) -> Deprecation {
        *self
    }
}

impl FromText for Deprecation {
    open spec fn spec_from_str(s: Seq<char>) -> Option<Deprecation> {
        if s == "false"@ {
            Some(Deprecation::False)
        } else if s == "true"@ {
            Some(Deprecation::True)
        } else if s == "aliased"@ {
            Some(Deprecation::Aliased)
        } else if s == "ignored"@ {
            Some(Deprecation::Ignored)
        } else {
            None
        }
    }

    fn from_str(s: &str) -> (r: Result<Deprecation, ()>) {
        if str_eq(s, "false") {
            Ok(Deprecation::False)
        } else if str_eq(s, "true") {
            Ok(Deprecation::True)
        } else if str_eq(s, "aliased") {
            Ok(Deprecation::Aliased)
        } else if str_eq(s, "ignored") {
            Ok(Deprecation::Ignored)
        } else {
            Err(())
        }
    }
}

/// The handle of a type: its place in the type table, counted from one.
#[derive(Debug, Clone, Copy, PartialEq, Eq, Hash, Structural)]
pub struct TypeHandle(pub usize);

impl DeepView for TypeHandle {
    type V = TypeHandle;

    open spec fn deep_view(&self) -> TypeHandle {
        *self
    }
}

/// The handle of a command: its place in the command table, counted from one.
#[derive(Debug, Clone, Copy, PartialEq, Eq, Hash, Structural)]
pub struct CommandHandle(pub usize);

impl DeepView for CommandHandle {
    type V = CommandHandle;

    open spec fn deep_view(&self) -> CommandHandle {
        *self
    }
}

/// The handle of a feature: its place in the feature table, counted from one.
#[derive(Debug, Clone, Copy, PartialEq, Eq, Hash, Structural)]
pub struct FeatureHandle(pub usize);

impl DeepView for FeatureHandle {
    type V = FeatureHandle;

    open spec fn deep_view(&self) -> FeatureHandle {
        *self
    }
}

/// One C declarator modifier.
#[derive(Debug, Clone, Copy, PartialEq, Eq, Structural)]
pub enum Decor {
    /// The qualifier `const`.
    Const,
    /// A pointer to something `const`.
    ConstPtr,
    /// A pointer to something that can be written.
    MutPtr,
}

impl DeepView for Decor {
    type V = Decor;

    open spec fn deep_view(&self) -> Decor {
        *self
    }
}

/// A declared type: a base type under a chain of decorators.
/// 
/// The chain is kept in the order of the C declaration, innermost first: each pointer wraps what
/// stands before it.
#[derive(Debug)]
pub struct DecorType {
    /// The base type.
    pub handle: TypeHandle,
    /// The decorators, innermost first.
    pub decors: Vec<Decor>,
    /// The length of the array, where the declaration has an array suffix.
    pub array: Option<String>,
}

/// `DecorType` with its strings as character sequences.
pub ghost struct DecorTypeView {
    pub handle: TypeHandle,
    pub decors: Seq<Decor>,
    pub array: Option<Seq<char>>,
}

impl DeepView for DecorType {
    type V = DecorTypeView;

    open spec fn deep_view(&self) -> DecorTypeView {
        DecorTypeView {
            handle: self.handle.deep_view(),
            decors: self.decors.deep_view(),
            array: self.array.deep_view(),
        }
    }
}

/// A member of a structure or union, or a parameter of a command.
#[derive(Debug)]
pub struct Member {
    pub name: String,
    pub decor_type: DecorType,
}

/// `Member` with its strings as character sequences.
pub ghost struct MemberView {
    pub name: Seq<char>,
    pub decor_type: DecorTypeView,
}

impl DeepView for Member {
    type V = MemberView;

    open spec fn deep_view(&self) -> MemberView {
        MemberView {
            name: self.name.deep_view(),
            decor_type: self.decor_type.deep_view(),
        }
    }
}

/// The head of a type: what every type holds.
#[derive(Debug)]
pub struct TypeCommon {
    /// The name in the registry.
    pub standard_name: String,
    /// The name in the bindings.
    pub output_name: String,
    /// The other names that the registry gives to the type.
    pub standard_aliases: Vec<String>,
    pub deprecated: Option<Deprecation>,
    /// The type that must be declared before this one.
    pub requires: Option<TypeHandle>,
    /// The feature that first introduces the type.
    pub feature: Option<FeatureHandle>,
    /// The features that introduce the type after the first, in their order.
    pub later_features: Vec<FeatureHandle>,
}

/// `TypeCommon` with its strings as character sequences.
pub ghost struct TypeCommonView {
    pub standard_name: Seq<char>,
    pub output_name: Seq<char>,
    pub standard_aliases: Seq<Seq<char>>,
    pub deprecated: Option<Deprecation>,
    pub requires: Option<TypeHandle>,
    pub feature: Option<FeatureHandle>,
    pub later_features: Seq<FeatureHandle>,
}

impl DeepView for TypeCommon {
    type V = TypeCommonView;

    open spec fn deep_view(&self) -> TypeCommonView {
        TypeCommonView {
            standard_name: self.standard_name.deep_view(),
            output_name: self.output_name.deep_view(),
            standard_aliases: self.standard_aliases.deep_view(),
            deprecated: self.deprecated.deep_view(),
            requires: self.requires.deep_view(),
            feature: self.feature.deep_view(),
            later_features: self.later_features.deep_view(),
        }
    }
}

/// The body of a header file: nothing.
#[derive(Debug)]
pub struct IncludeDetails {}

/// `IncludeDetails` with its strings as character sequences.
pub ghost struct IncludeDetailsView {}

impl DeepView for IncludeDetails {
    type V = IncludeDetailsView;

    open spec fn deep_view(&self) -> IncludeDetailsView {
        IncludeDetailsView {}
    }
}

/// The body of a preprocessor macro: nothing.
#[derive(Debug)]
pub struct DefineDetails {}

/// `DefineDetails` with its strings as character sequences.
pub ghost struct DefineDetailsView {}

impl DeepView for DefineDetails {
    type V = DefineDetailsView;

    open spec fn deep_view(&self) -> DefineDetailsView {
        DefineDetailsView {}
    }
}

/// The body of a typedef.
#[derive(Debug)]
pub struct BaseTypeDetails {
    /// The type that the typedef stands for, if it names one.
    pub target: Option<TypeHandle>,
}

/// `BaseTypeDetails` with its strings as character sequences.
pub ghost struct BaseTypeDetailsView {
    pub target: Option<TypeHandle>,
}

impl DeepView for BaseTypeDetails {
    type V = BaseTypeDetailsView;

    open spec fn deep_view(&self) -> BaseTypeDetailsView {
        BaseTypeDetailsView {
            target: self.target.deep_view(),
        }
    }
}

/// The body of an object handle.
#[derive(Debug)]
pub struct HandleDetails {
    /// The handle type that objects of this type belong to.
    pub parent: Option<TypeHandle>,
}

/// `HandleDetails` with its strings as character sequences.
pub ghost struct HandleDetailsView {
    pub parent: Option<TypeHandle>,
}

impl DeepView for HandleDetails {
    type V = HandleDetailsView;

    open spec fn deep_view(&self) -> HandleDetailsView {
        HandleDetailsView {
            parent: self.parent.deep_view(),
        }
    }
}

/// The body of a set of flags.
#[derive(Debug)]
pub struct BitmaskDetails {
    /// The integer type that holds the flags.
    pub output_type: TypeHandle,
    /// The enumeration that names the flags.
    pub bit_values: Option<TypeHandle>,
}

/// `BitmaskDetails` with its strings as character sequences.
pub ghost struct BitmaskDetailsView {
    pub output_type: TypeHandle,
    pub bit_values: Option<TypeHandle>,
}

impl DeepView for BitmaskDetails {
    type V = BitmaskDetailsView;

    open spec fn deep_view(&self) -> BitmaskDetailsView {
        BitmaskDetailsView {
            output_type: self.output_type.deep_view(),
            bit_values: self.bit_values.deep_view(),
        }
    }
}

/// The body of an enumeration: nothing. Its values stand in the enumerant table.
#[derive(Debug)]
pub struct EnumDetails {}

/// `EnumDetails` with its strings as character sequences.
pub ghost struct EnumDetailsView {}

impl DeepView for EnumDetails {
    type V = EnumDetailsView;

    open spec fn deep_view(&self) -> EnumDetailsView {
        EnumDetailsView {}
    }
}

/// The body of a function pointer: nothing.
#[derive(Debug)]
pub struct FnPtrDetails {}

/// `FnPtrDetails` with its strings as character sequences.
pub ghost struct FnPtrDetailsView {}

impl DeepView for FnPtrDetails {
    type V = FnPtrDetailsView;

    open spec fn deep_view(&self) -> FnPtrDetailsView {
        FnPtrDetailsView {}
    }
}

/// The body of a structure.
#[derive(Debug)]
pub struct StructDetails {
    pub members: Vec<Member>,
    /// The structures whose `pNext` chain this one can join.
    pub extends: Vec<TypeHandle>,
    /// Whether the structure is only ever filled in by the API.
    pub returned_only: bool,
}

/// `StructDetails` with its strings as character sequences.
pub ghost struct StructDetailsView {
    pub members: Seq<MemberView>,
    pub extends: Seq<TypeHandle>,
    pub returned_only: bool,
}

impl DeepView for StructDetails {
    type V = StructDetailsView;

    open spec fn deep_view(&self) -> StructDetailsView {
        StructDetailsView {
            members: self.members.deep_view(),
            extends: self.extends.deep_view(),
            returned_only: self.returned_only.deep_view(),
        }
    }
}

/// The body of a union.
#[derive(Debug)]
pub struct UnionDetails {
    pub members: Vec<Member>,
}

/// `UnionDetails` with its strings as character sequences.
pub ghost struct UnionDetailsView {
    pub members: Seq<MemberView>,
}

impl DeepView for UnionDetails {
    type V = UnionDetailsView;

    open spec fn deep_view(&self) -> UnionDetailsView {
        UnionDetailsView {
            members: self.members.deep_view(),
        }
    }
}

/// The body of a type that is declared outside the registry: nothing.
#[derive(Debug)]
pub struct ImportedDetails {}

/// `ImportedDetails` with its strings as character sequences.
pub ghost struct ImportedDetailsView {}

impl DeepView for ImportedDetails {
    type V = ImportedDetailsView;

    open spec fn deep_view(&self) -> ImportedDetailsView {
        ImportedDetailsView {}
    }
}

/// The body of a type, by category.
#[derive(Debug)]
pub enum TypeDetails {
    Include(IncludeDetails),
    Define(DefineDetails),
    Base(BaseTypeDetails),
    Handle(HandleDetails),
    Bitmask(BitmaskDetails),
    Enum(EnumDetails),
    FnPtr(FnPtrDetails),
    Struct(StructDetails),
    Union(UnionDetails),
    Imported(ImportedDetails),
}

/// `TypeDetails` with its strings as character sequences.
pub ghost enum TypeDetailsView {
    Include(IncludeDetailsView),
    Define(DefineDetailsView),
    Base(BaseTypeDetailsView),
    Handle(HandleDetailsView),
    Bitmask(BitmaskDetailsView),
    Enum(EnumDetailsView),
    FnPtr(FnPtrDetailsView),
    Struct(StructDetailsView),
    Union(UnionDetailsView),
    Imported(ImportedDetailsView),
}

impl DeepView for TypeDetails {
    type V = TypeDetailsView;

    open spec fn deep_view(&self) -> TypeDetailsView {
        match *self {
            TypeDetails::Include(x) => TypeDetailsView::Include(x.deep_view()),
            TypeDetails::Define(x) => TypeDetailsView::Define(x.deep_view()),
            TypeDetails::Base(x) => TypeDetailsView::Base(x.deep_view()),
            TypeDetails::Handle(x) => TypeDetailsView::Handle(x.deep_view()),
            TypeDetails::Bitmask(x) => TypeDetailsView::Bitmask(x.deep_view()),
            TypeDetails::Enum(x) => TypeDetailsView::Enum(x.deep_view()),
            TypeDetails::FnPtr(x) => TypeDetailsView::FnPtr(x.deep_view()),
            TypeDetails::Struct(x) => TypeDetailsView::Struct(x.deep_view()),
            TypeDetails::Union(x) => TypeDetailsView::Union(x.deep_view()),
            TypeDetails::Imported(x) => TypeDetailsView::Imported(x.deep_view()),
        }
    }
}

/// A type of the registry.
#[derive(Debug)]
pub struct Type {
    pub head: TypeCommon,
    pub body: TypeDetails,
}

/// `Type` with its strings as character sequences.
pub ghost struct TypeView {
    pub head: TypeCommonView,
    pub body: TypeDetailsView,
}

impl DeepView for Type {
    type V = TypeView;

    open spec fn deep_view(&self) -> TypeView {
        TypeView {
            head: self.head.deep_view(),
            body: self.body.deep_view(),
        }
    }
}

/// A header file, before it takes its place among the types.
#[derive(Debug)]
pub struct IncludeType {
    pub common: TypeCommon,
    pub details: IncludeDetails,
}

/// `IncludeType` with its strings as character sequences.
pub ghost struct IncludeTypeView {
    pub common: TypeCommonView,
    pub details: IncludeDetailsView,
}

impl DeepView for IncludeType {
    type V = IncludeTypeView;

    open spec fn deep_view(&self) -> IncludeTypeView {
        IncludeTypeView {
            common: self.common.deep_view(),
            details: self.details.deep_view(),
        }
    }
}

impl IncludeType {
    /// The type that this is.
    pub fn into_type(self) -> (r: Type)
        ensures
            r == (Type { head: self.common, body: TypeDetails::Include(self.details) }),
    {
        let IncludeType { common, details } = self;
        Type { head: common, body: TypeDetails::Include(details) }
    }
}

/// A preprocessor macro, before it takes its place among the types.
#[derive(Debug)]
pub struct DefineType {
    pub common: TypeCommon,
    pub details: DefineDetails,
}

/// `DefineType` with its strings as character sequences.
pub ghost struct DefineTypeView {
    pub common: TypeCommonView,
    pub details: DefineDetailsView,
}

impl DeepView for DefineType {
    type V = DefineTypeView;

    open spec fn deep_view(&self) -> DefineTypeView {
        DefineTypeView {
            common: self.common.deep_view(),
            details: self.details.deep_view(),
        }
    }
}

impl DefineType {
    /// The type that this is.
    pub fn into_type(self) -> (r: Type)
        ensures
            r == (Type { head: self.common, body: TypeDetails::Define(self.details) }),
    {
        let DefineType { common, details } = self;
        Type { head: common, body: TypeDetails::Define(details) }
    }
}

/// A typedef, before it takes its place among the types.
#[derive(Debug)]
pub struct BaseType {
    pub common: TypeCommon,
    pub details: BaseTypeDetails,
}

/// `BaseType` with its strings as character sequences.
pub ghost struct BaseTypeView {
    pub common: TypeCommonView,
    pub details: BaseTypeDetailsView,
}

impl DeepView for BaseType {
    type V = BaseTypeView;

    open spec fn deep_view(&self) -> BaseTypeView {
        BaseTypeView {
            common: self.common.deep_view(),
            details: self.details.deep_view(),
        }
    }
}

impl BaseType {
    /// The type that this is.
    pub fn into_type(self) -> (r: Type)
        ensures
            r == (Type { head: self.common, body: TypeDetails::Base(self.details) }),
    {
        let BaseType { common, details } = self;
        Type { head: common, body: TypeDetails::Base(details) }
    }
}

/// An object handle, before it takes its place among the types.
#[derive(Debug)]
pub struct HandleType {
    pub common: TypeCommon,
    pub details: HandleDetails,
}

/// `HandleType` with its strings as character sequences.
pub ghost struct HandleTypeView {
    pub common: TypeCommonView,
    pub details: HandleDetailsView,
}

impl DeepView for HandleType {
    type V = HandleTypeView;

    open spec fn deep_view(&self) -> HandleTypeView {
        HandleTypeView {
            common: self.common.deep_view(),
            details: self.details.deep_view(),
        }
    }
}

impl HandleType {
    /// The type that this is.
    pub fn into_type(self) -> (r: Type)
        ensures
            r == (Type { head: self.common, body: TypeDetails::Handle(self.details) }),
    {
        let HandleType { common, details } = self;
        Type { head: common, body: TypeDetails::Handle(details) }
    }
}

/// A set of flags, before it takes its place among the types.
#[derive(Debug)]
pub struct BitmaskType {
    pub common: TypeCommon,
    pub details: BitmaskDetails,
}

/// `BitmaskType` with its strings as character sequences.
pub ghost struct BitmaskTypeView {
    pub common: TypeCommonView,
    pub details: BitmaskDetailsView,
}

impl DeepView for BitmaskType {
    type V = BitmaskTypeView;

    open spec fn deep_view(&self) -> BitmaskTypeView {
        BitmaskTypeView {
            common: self.common.deep_view(),
            details: self.details.deep_view(),
        }
    }
}

impl BitmaskType {
    /// The type that this is.
    pub fn into_type(self) -> (r: Type)
        ensures
            r == (Type { head: self.common, body: TypeDetails::Bitmask(self.details) }),
    {
        let BitmaskType { common, details } = self;
        Type { head: common, body: TypeDetails::Bitmask(details) }
    }
}

/// An enumeration, before it takes its place among the types.
#[derive(Debug)]
pub struct EnumType {
    pub common: TypeCommon,
    pub details: EnumDetails,
}

/// `EnumType` with its strings as character sequences.
pub ghost struct EnumTypeView {
    pub common: TypeCommonView,
    pub details: EnumDetailsView,
}

impl DeepView for EnumType {
    type V = EnumTypeView;

    open spec fn deep_view(&self) -> EnumTypeView {
        EnumTypeView {
            common: self.common.deep_view(),
            details: self.details.deep_view(),
        }
    }
}

impl EnumType {
    /// The type that this is.
    pub fn into_type(self) -> (r: Type)
        ensures
            r == (Type { head: self.common, body: TypeDetails::Enum(self.details) }),
    {
        let EnumType { common, details } = self;
        Type { head: common, body: TypeDetails::Enum(details) }
    }
}

/// A function pointer, before it takes its place among the types.
#[derive(Debug)]
pub struct FnPtrType {
    pub common: TypeCommon,
    pub details: FnPtrDetails,
}

/// `FnPtrType` with its strings as character sequences.
pub ghost struct FnPtrTypeView {
    pub common: TypeCommonView,
    pub details: FnPtrDetailsView,
}

impl DeepView for FnPtrType {
    type V = FnPtrTypeView;

    open spec fn deep_view(&self) -> FnPtrTypeView {
        FnPtrTypeView {
            common: self.common.deep_view(),
            details: self.details.deep_view(),
        }
    }
}

impl FnPtrType {
    /// The type that this is.
    pub fn into_type(self) -> (r: Type)
        ensures
            r == (Type { head: self.common, body: TypeDetails::FnPtr(self.details) }),
    {
        let FnPtrType { common, details } = self;
        Type { head: common, body: TypeDetails::FnPtr(details) }
    }
}

/// A structure, before it takes its place among the types.
#[derive(Debug)]
pub struct StructType {
    pub common: TypeCommon,
    pub details: StructDetails,
}

/// `StructType` with its strings as character sequences.
pub ghost struct StructTypeView {
    pub common: TypeCommonView,
    pub details: StructDetailsView,
}

impl DeepView for StructType {
    type V = StructTypeView;

    open spec fn deep_view(&self) -> StructTypeView {
        StructTypeView {
            common: self.common.deep_view(),
            details: self.details.deep_view(),
        }
    }
}

impl StructType {
    /// The type that this is.
    pub fn into_type(self) -> (r: Type)
        ensures
            r == (Type { head: self.common, body: TypeDetails::Struct(self.details) }),
    {
        let StructType { common, details } = self;
        Type { head: common, body: TypeDetails::Struct(details) }
    }
}

/// A union, before it takes its place among the types.
#[derive(Debug)]
pub struct UnionType {
    pub common: TypeCommon,
    pub details: UnionDetails,
}

/// `UnionType` with its strings as character sequences.
pub ghost struct UnionTypeView {
    pub common: TypeCommonView,
    pub details: UnionDetailsView,
}

impl DeepView for UnionType {
    type V = UnionTypeView;

    open spec fn deep_view(&self) -> UnionTypeView {
        UnionTypeView {
            common: self.common.deep_view(),
            details: self.details.deep_view(),
        }
    }
}

impl UnionType {
    /// The type that this is.
    pub fn into_type(self) -> (r: Type)
        ensures
            r == (Type { head: self.common, body: TypeDetails::Union(self.details) }),
    {
        let UnionType { common, details } = self;
        Type { head: common, body: TypeDetails::Union(details) }
    }
}

/// A type declared outside the registry, before it takes its place among the types.
#[derive(Debug)]
pub struct ImportedType {
    pub common: TypeCommon,
    pub details: ImportedDetails,
}

/// `ImportedType` with its strings as character sequences.
pub ghost struct ImportedTypeView {
    pub common: TypeCommonView,
    pub details: ImportedDetailsView,
}

impl DeepView for ImportedType {
    type V = ImportedTypeView;

    open spec fn deep_view(&self) -> ImportedTypeView {
        ImportedTypeView {
            common: self.common.deep_view(),
            details: self.details.deep_view(),
        }
    }
}

impl ImportedType {
    /// The type that this is.
    pub fn into_type(self) -> (r: Type)
        ensures
            r == (Type { head: self.common, body: TypeDetails::Imported(self.details) }),
    {
        let ImportedType { common, details } = self;
        Type { head: common, body: TypeDetails::Imported(details) }
    }
}

/// The types of the registry, and where those of each category stand.
#[derive(Debug)]
pub struct TypeTable {
    /// The types; the type of handle `h` stands at index `h - 1`.
    pub items: Vec<Type>,
    pub struct_types: Vec<TypeHandle>,
    pub union_types: Vec<TypeHandle>,
    pub enum_types: Vec<TypeHandle>,
    pub bitmask_types: Vec<TypeHandle>,
    /// The type named `VkResult`, if the registry declares it.
    pub result_type: Option<TypeHandle>,
}

/// `TypeTable` with its strings as character sequences.
pub ghost struct TypeTableView {
    pub items: Seq<TypeView>,
    pub struct_types: Seq<TypeHandle>,
    pub union_types: Seq<TypeHandle>,
    pub enum_types: Seq<TypeHandle>,
    pub bitmask_types: Seq<TypeHandle>,
    pub result_type: Option<TypeHandle>,
}

impl DeepView for TypeTable {
    type V = TypeTableView;

    open spec fn deep_view(&self) -> TypeTableView {
        TypeTableView {
            items: self.items.deep_view(),
            struct_types: self.struct_types.deep_view(),
            union_types: self.union_types.deep_view(),
            enum_types: self.enum_types.deep_view(),
            bitmask_types: self.bitmask_types.deep_view(),
            result_type: self.result_type.deep_view(),
        }
    }
}

/// What an enumerant stands for.
#[derive(Debug)]
pub enum EnumNumber {
    /// A number.
    Value(i64),
    /// The bit at this position.
    Bit(u32),
    /// The enumerant of this name.
    Alias(String),
    /// A constant: its value as the registry writes it, and its C type.
    Constant(String, String),
}

/// `EnumNumber` with its strings as character sequences.
pub ghost enum EnumNumberView {
    Value(i64),
    Bit(u32),
    Alias(Seq<char>),
    Constant(Seq<char>, Seq<char>),
}

impl DeepView for EnumNumber {
    type V = EnumNumberView;

    open spec fn deep_view(&self) -> EnumNumberView {
        match *self {
            EnumNumber::Value(x) => EnumNumberView::Value(x.deep_view()),
            EnumNumber::Bit(x) => EnumNumberView::Bit(x.deep_view()),
            EnumNumber::Alias(x) => EnumNumberView::Alias(x.deep_view()),
            EnumNumber::Constant(x, y) => EnumNumberView::Constant(x.deep_view(), y.deep_view()),
        }
    }
}

/// An enumerant.
#[derive(Debug)]
pub struct EnumValue {
    pub standard_name: String,
    pub output_name: String,
    pub number: EnumNumber,
    /// The feature that adds the enumerant, for one that an extension patches in.
    pub feature: Option<FeatureHandle>,
}

/// `EnumValue` with its strings as character sequences.
pub ghost struct EnumValueView {
    pub standard_name: Seq<char>,
    pub output_name: Seq<char>,
    pub number: EnumNumberView,
    pub feature: Option<FeatureHandle>,
}

impl DeepView for EnumValue {
    type V = EnumValueView;

    open spec fn deep_view(&self) -> EnumValueView {
        EnumValueView {
            standard_name: self.standard_name.deep_view(),
            output_name: self.output_name.deep_view(),
            number: self.number.deep_view(),
            feature: self.feature.deep_view(),
        }
    }
}

/// A block of enumerants.
#[derive(Debug)]
pub struct Enums {
    pub standard_name: String,
    pub output_name: String,
    pub kind: EnumsType,
    /// The width of the integer that holds a value: 32 unless the registry says 64.
    pub bit_width: u32,
    /// The type of the same name, if there is one.
    pub handle: Option<TypeHandle>,
    pub values: Vec<EnumValue>,
}

/// `Enums` with its strings as character sequences.
pub ghost struct EnumsView {
    pub standard_name: Seq<char>,
    pub output_name: Seq<char>,
    pub kind: EnumsType,
    pub bit_width: u32,
    pub handle: Option<TypeHandle>,
    pub values: Seq<EnumValueView>,
}

impl DeepView for Enums {
    type V = EnumsView;

    open spec fn deep_view(&self) -> EnumsView {
        EnumsView {
            standard_name: self.standard_name.deep_view(),
            output_name: self.output_name.deep_view(),
            kind: self.kind.deep_view(),
            bit_width: self.bit_width.deep_view(),
            handle: self.handle.deep_view(),
            values: self.values.deep_view(),
        }
    }
}

/// The head of a command.
#[derive(Debug)]
pub struct CommandCommon {
    pub standard_name: String,
    pub output_name: String,
    pub standard_aliases: Vec<String>,
    /// The feature that first introduces the command.
    pub feature: Option<FeatureHandle>,
    /// The features that introduce the command after the first, in their order.
    pub later_features: Vec<FeatureHandle>,
}

/// `CommandCommon` with its strings as character sequences.
pub ghost struct CommandCommonView {
    pub standard_name: Seq<char>,
    pub output_name: Seq<char>,
    pub standard_aliases: Seq<Seq<char>>,
    pub feature: Option<FeatureHandle>,
    pub later_features: Seq<FeatureHandle>,
}

impl DeepView for CommandCommon {
    type V = CommandCommonView;

    open spec fn deep_view(&self) -> CommandCommonView {
        CommandCommonView {
            standard_name: self.standard_name.deep_view(),
            output_name: self.output_name.deep_view(),
            standard_aliases: self.standard_aliases.deep_view(),
            feature: self.feature.deep_view(),
            later_features: self.later_features.deep_view(),
        }
    }
}

/// A command: its head, what it returns and what it takes.
#[derive(Debug)]
pub struct Command {
    pub head: CommandCommon,
    pub returns: DecorType,
    pub params: Vec<Member>,
}

/// `Command` with its strings as character sequences.
pub ghost struct CommandView {
    pub head: CommandCommonView,
    pub returns: DecorTypeView,
    pub params: Seq<MemberView>,
}

impl DeepView for Command {
    type V = CommandView;

    open spec fn deep_view(&self) -> CommandView {
        CommandView {
            head: self.head.deep_view(),
            returns: self.returns.deep_view(),
            params: self.params.deep_view(),
        }
    }
}

/// The names of a feature.
#[derive(Debug)]
pub struct FeatureHeader {
    pub standard_name: String,
    pub output_name: String,
}

/// `FeatureHeader` with its strings as character sequences.
pub ghost struct FeatureHeaderView {
    pub standard_name: Seq<char>,
    pub output_name: Seq<char>,
}

impl DeepView for FeatureHeader {
    type V = FeatureHeaderView;

    open spec fn deep_view(&self) -> FeatureHeaderView {
        FeatureHeaderView {
            standard_name: self.standard_name.deep_view(),
            output_name: self.output_name.deep_view(),
        }
    }
}

/// A core version of the API.
#[derive(Debug)]
pub struct CoreFeature {
    pub number: String,
}

/// `CoreFeature` with its strings as character sequences.
pub ghost struct CoreFeatureView {
    pub number: Seq<char>,
}

impl DeepView for CoreFeature {
    type V = CoreFeatureView;

    open spec fn deep_view(&self) -> CoreFeatureView {
        CoreFeatureView {
            number: self.number.deep_view(),
        }
    }
}

/// An extension.
#[derive(Debug)]
pub struct Extension {
    pub number: u64,
    pub platform: Option<String>,
}

/// `Extension` with its strings as character sequences.
pub ghost struct ExtensionView {
    pub number: u64,
    pub platform: Option<Seq<char>>,
}

impl DeepView for Extension {
    type V = ExtensionView;

    open spec fn deep_view(&self) -> ExtensionView {
        ExtensionView {
            number: self.number.deep_view(),
            platform: self.platform.deep_view(),
        }
    }
}

/// A platform.
#[derive(Debug)]
pub struct Platform {
    pub protect: String,
}

/// `Platform` with its strings as character sequences.
pub ghost struct PlatformView {
    pub protect: Seq<char>,
}

impl DeepView for Platform {
    type V = PlatformView;

    open spec fn deep_view(&self) -> PlatformView {
        PlatformView {
            protect: self.protect.deep_view(),
        }
    }
}

/// What kind of feature a feature is.
#[derive(Debug)]
pub enum FeatureDetails {
    Core(CoreFeature),
    Extension(Extension),
    Platform(Platform),
}

/// `FeatureDetails` with its strings as character sequences.
pub ghost enum FeatureDetailsView {
    Core(CoreFeatureView),
    Extension(ExtensionView),
    Platform(PlatformView),
}

impl DeepView for FeatureDetails {
    type V = FeatureDetailsView;

    open spec fn deep_view(&self) -> FeatureDetailsView {
        match *self {
            FeatureDetails::Core(x) => FeatureDetailsView::Core(x.deep_view()),
            FeatureDetails::Extension(x) => FeatureDetailsView::Extension(x.deep_view()),
            FeatureDetails::Platform(x) => FeatureDetailsView::Platform(x.deep_view()),
        }
    }
}

/// A feature: the unit by which the bindings are gated.
#[derive(Debug)]
pub struct Feature {
    pub header: FeatureHeader,
    pub details: FeatureDetails,
}

/// `Feature` with its strings as character sequences.
pub ghost struct FeatureView {
    pub header: FeatureHeaderView,
    pub details: FeatureDetailsView,
}

impl DeepView for Feature {
    type V = FeatureView;

    open spec fn deep_view(&self) -> FeatureView {
        FeatureView {
            header: self.header.deep_view(),
            details: self.details.deep_view(),
        }
    }
}

/// The indexed registry.
#[derive(Debug)]
pub struct Vulkan {
    pub types: TypeTable,
    pub enums: Vec<Enums>,
    pub commands: Vec<Command>,
    pub features: Vec<Feature>,
    /// The kinds of registry items that the bindings leave out.
    pub warnings: Vec<String>,
}

/// `Vulkan` with its strings as character sequences.
pub ghost struct VulkanView {
    pub types: TypeTableView,
    pub enums: Seq<EnumsView>,
    pub commands: Seq<CommandView>,
    pub features: Seq<FeatureView>,
    pub warnings: Seq<Seq<char>>,
}

impl DeepView for Vulkan {
    type V = VulkanView;

    open spec fn deep_view(&self) -> VulkanView {
        VulkanView {
            types: self.types.deep_view(),
            enums: self.enums.deep_view(),
            commands: self.commands.deep_view(),
            features: self.features.deep_view(),
            warnings: self.warnings.deep_view(),
        }
    }
}

impl TypeHandle {
    /// Whether the handle refers to an entry of a table of `n` entries.
    pub open spec fn live(self, n: nat) -> bool {
        1 <= self.0 <= n
    }
}

impl FeatureHandle {
    /// Whether the handle refers to an entry of a table of `n` entries.
    pub open spec fn live(self, n: nat) -> bool {
        1 <= self.0 <= n
    }
}

impl CommandHandle {
    /// Whether the handle refers to an entry of a table of `n` entries.
    pub open spec fn live(self, n: nat) -> bool {
        1 <= self.0 <= n
    }
}

/// Whether an optional type handle, if there is one, is live among `n` types.
pub open spec fn opt_live(h: Option<TypeHandle>, n: nat) -> bool {
    h is Some ==> h->0.live(n)
}

/// Whether an optional feature handle, if there is one, is live among `n` features.
pub open spec fn opt_feature_live(h: Option<FeatureHandle>, n: nat) -> bool {
    h is Some ==> h->0.live(n)
}

/// Whether every feature handle of a list is live among `n` features.
pub open spec fn features_live(handles: Seq<FeatureHandle>, n: nat) -> bool {
    forall|i: int| 0 <= i < handles.len() ==> (#[trigger] handles[i]).live(n)
}

/// Whether the declared type of every member refers to a live type.
pub open spec fn members_live(members: Seq<MemberView>, n: nat) -> bool {
    forall|i: int| 0 <= i < members.len() ==> (#[trigger] members[i]).decor_type.handle.live(n)
}

/// Whether every handle of a list is live among `n` types.
pub open spec fn handles_live(handles: Seq<TypeHandle>, n: nat) -> bool {
    forall|i: int| 0 <= i < handles.len() ==> (#[trigger] handles[i]).live(n)
}

impl TypeDetailsView {
    /// Whether every type handle in the body is live among `n` types.
    pub open spec fn live(self, n: nat) -> bool {
        match self {
            TypeDetailsView::Base(d) => opt_live(d.target, n),
            TypeDetailsView::Handle(d) => opt_live(d.parent, n),
            TypeDetailsView::Bitmask(d) => d.output_type.live(n) && opt_live(d.bit_values, n),
            TypeDetailsView::Struct(d) => members_live(d.members, n) && handles_live(d.extends, n),
            TypeDetailsView::Union(d) => members_live(d.members, n),
            _ => true,
        }
    }
}

impl TypeView {
    /// Whether every handle in the type is live among `n` types and `f` features.
    pub open spec fn live(self, n: nat, f: nat) -> bool {
        opt_live(self.head.requires, n) && opt_feature_live(self.head.feature, f)
            && features_live(self.head.later_features, f) && self.body.live(n)
    }
}

impl CommandView {
    /// Whether every handle in the command is live among `n` types and `f` features.
    pub open spec fn live(self, n: nat, f: nat) -> bool {
        self.returns.handle.live(n) && members_live(self.params, n) && opt_feature_live(
            self.head.feature,
            f,
        ) && features_live(self.head.later_features, f)
    }
}

impl EnumsView {
    /// Whether every handle in the block is live among `n` types and `f` features.
    pub open spec fn live(self, n: nat, f: nat) -> bool {
        opt_live(self.handle, n) && forall|i: int|
            0 <= i < self.values.len() ==> opt_feature_live(
                (#[trigger] self.values[i]).feature,
                f,
            )
    }
}

/// The outermost pointer among the first `n` decorators: the last that is no `const`.
pub open spec fn spec_outer(decors: Seq<Decor>, n: int) -> Option<Decor>
    decreases n,
{
    if n <= 0 || n > decors.len() {
        None
    } else if decors[n - 1] == Decor::Const {
        spec_outer(decors, n - 1)
    } else {
        Some(decors[n - 1])
    }
}

/// Finds the outermost pointer of a chain of decorators.
pub fn outer(decors: &Vec<Decor>) -> (r: Option<Decor>)
    ensures
        r == spec_outer(decors.deep_view(), decors.len() as int),
{
    let mut n: usize = decors.len();
    proof {
        assert(decors.deep_view() =~= decors@);
    }
    while n > 0
        invariant
            n <= decors.len(),
            decors.deep_view() == decors@,
            spec_outer(decors@, n as int) == spec_outer(decors@, decors.len() as int),
        decreases n,
    {
        let d = decors[n - 1];
        if d != Decor::Const {
            return Some(d);
        }
        n -= 1;
    }
    None
}

/// The members of a structure or union; none for any other type.
pub open spec fn spec_members_of(body: TypeDetailsView) -> Seq<MemberView> {
    match body {
        TypeDetailsView::Struct(d) => d.members,
        TypeDetailsView::Union(d) => d.members,
        _ => Seq::empty(),
    }
}

impl MemberView {
    /// Whether the member is held by value: whether no pointer stands between the record and
    /// the type of the member.
    pub open spec fn by_value(self) -> bool {
        spec_outer(self.decor_type.decors, self.decor_type.decors.len() as int) is None
    }
}

impl TypeTableView {
    /// The type that a live handle refers to.
    pub open spec fn get(self, h: TypeHandle) -> TypeView
        recommends
            h.live(self.items.len()),
    {
        self.items[h.0 - 1]
    }
}

impl VulkanView {
    /// Whether no two types that the naming rule has named share an output name. The rule
    /// names every type but those that are declared outside the registry.
    pub open spec fn distinct_names(self) -> bool {
        forall|i: int, j: int|
            0 <= i < self.types.items.len() && 0 <= j < self.types.items.len() && i != j && !((
            #[trigger] self.types.items[i]).body is Imported) && !((
            #[trigger] self.types.items[j]).body is Imported)
                ==> self.types.items[i].head.output_name != self.types.items[j].head.output_name
    }

    /// Whether the ranks order the types so that every record ranks above each type that it
    /// holds by value.
    pub open spec fn ranked(self, rank: Seq<nat>) -> bool {
        let n = self.types.items.len();
        &&& rank.len() == n
        &&& forall|i: int, k: int|
            0 <= i < n && 0 <= k < spec_members_of(self.types.items[i].body).len() && (
            #[trigger] spec_members_of(self.types.items[i].body)[k]).by_value() ==> {
                let h = spec_members_of(self.types.items[i].body)[k].decor_type.handle;
                h.live(n) && rank[h.0 - 1] < rank[i]
            }
    }

    /// Whether no record holds itself by value, directly or through other records: whether
    /// the types can be ranked. Through pointers types may refer to one another as they like.
    pub open spec fn acyclic(self) -> bool {
        exists|rank: Seq<nat>| self.ranked(rank)
    }

    /// Whether every structure extends structures only.
    pub open spec fn extends_structs(self) -> bool {
        forall|i: int, k: int|
            0 <= i < self.types.items.len() && (self.types.items[i].body matches
            TypeDetailsView::Struct(s) && 0 <= k < s.extends.len()) ==> {
                let h = #[trigger] self.types.items[i].body->Struct_0.extends[k];
                h.live(self.types.items.len()) && self.types.get(h).body is Struct
            }
    }

    /// What holds of every linked registry. Every handle that stands anywhere in it refers to
    /// a live entry of its table; the handles of each category refer to types of that
    /// category; the result type is set if and only if a type is named `VkResult`, and is that
    /// type; the output
    /// names that the naming rule has given are all different; every structure extends
    /// structures only; and no record holds itself by value.
    pub open spec fn wf(self) -> bool {
        let n = self.types.items.len();
        let f = self.features.len();
        &&& self.distinct_names()
        &&& self.extends_structs()
        &&& self.acyclic()
        &&& forall|i: int| 0 <= i < n ==> (#[trigger] self.types.items[i]).live(n, f)
        &&& forall|i: int|
            0 <= i < self.commands.len() ==> (#[trigger] self.commands[i]).live(n, f)
        &&& forall|i: int| 0 <= i < self.enums.len() ==> (#[trigger] self.enums[i]).live(n, f)
        &&& forall|i: int|
            0 <= i < self.types.struct_types.len() ==> {
                let h = #[trigger] self.types.struct_types[i];
                h.live(n) && self.types.get(h).body is Struct
            }
        &&& forall|i: int|
            0 <= i < self.types.union_types.len() ==> {
                let h = #[trigger] self.types.union_types[i];
                h.live(n) && self.types.get(h).body is Union
            }
        &&& forall|i: int|
            0 <= i < self.types.enum_types.len() ==> {
                let h = #[trigger] self.types.enum_types[i];
                h.live(n) && self.types.get(h).body is Enum
            }
        &&& forall|i: int|
            0 <= i < self.types.bitmask_types.len() ==> {
                let h = #[trigger] self.types.bitmask_types[i];
                h.live(n) && self.types.get(h).body is Bitmask
            }
        &&& self.types.result_type is Some ==> {
            let h = self.types.result_type->0;
            h.live(n) && self.types.get(h).head.standard_name == "VkResult"@
        }
        &&& self.types.result_type is None ==> forall|i: int|
            0 <= i < n ==> (#[trigger] self.types.items[i]).head.standard_name != "VkResult"@
    }
}

impl TypeTable {
    /// The type that a handle refers to, if the handle is live.
    pub fn get(&self, h: TypeHandle) -> (r: Option<&Type>)
        ensures
            match r {
                Some(t) => h.live(self.items@.len()) && *t == self.items@[h.0 - 1],
                None => !h.live(self.items@.len()),
            },
    {
        if 1 <= h.0 && h.0 <= self.items.len() {
            Some(&self.items[h.0 - 1])
        } else {
            None
        }
    }
}

impl Vulkan {
    /// Whether the registry holds a structure.
    pub fn has_structs(&self) -> (r: bool)
        ensures
            r == (self.deep_view().types.struct_types.len() > 0),
    {
        self.types.struct_types.len() > 0
    }

    /// Whether the registry holds a union.
    pub fn has_unions(&self) -> (r: bool)
        ensures
            r == (self.deep_view().types.union_types.len() > 0),
    {
        self.types.union_types.len() > 0
    }

    /// Whether the registry holds an enumeration.
    pub fn has_enum_types(&self) -> (r: bool)
        ensures
            r == (self.deep_view().types.enum_types.len() > 0),
    {
        self.types.enum_types.len() > 0
    }

    /// Whether the registry holds a set of flags.
    pub fn has_bitmask_types(&self) -> (r: bool)
        ensures
            r == (self.deep_view().types.bitmask_types.len() > 0),
    {
        self.types.bitmask_types.len() > 0
    }

    /// Whether the registry holds a command.
    pub fn has_commands(&self) -> (r: bool)
        ensures
            r == (self.deep_view().commands.len() > 0),
    {
        self.commands.len() > 0
    }

    /// Whether the registry declares the result type.
    pub fn has_result_type(&self) -> (r: bool)
        ensures
            r == self.deep_view().types.result_type.is_some(),
    {
        self.types.result_type.is_some()
    }
}

} // verus!
