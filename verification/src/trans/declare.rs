//! The first pass over the types: declaration.
//!
//! Every type of the registry is given its place in source order, and with it its handle.
//! What its body says of other types is kept by name, in a draft, until every type has its
//! place.

use vstd::prelude::*;
use vstd::string::*;
use crate::error::TransError;
use crate::error::TransErrorView;
use crate::names::builtin;
use crate::names::spec_builtin;
use crate::names::spec_type_name;
use crate::names::type_output_name;
use crate::parse::commands::Command;
use crate::parse::commands::CommandView;
use crate::parse::commands::CommandsItem;
use crate::parse::commands::CommandsItemView;
use crate::parse::generic::GenericItem;
use crate::parse::generic::GenericItemKind;
use crate::parse::generic::GenericItemView;
use crate::parse::registry::Registry;
use crate::parse::registry::RegistryItem;
use crate::parse::registry::RegistryItemView;
use crate::parse::registry::RegistryView;
use crate::parse::types::StructItem;
use crate::parse::types::StructItemView;
use crate::parse::types::Type;
use crate::parse::types::TypeDetails;
use crate::parse::types::TypeDetailsView;
use crate::parse::types::TypeView;
use crate::parse::types::TypesItem;
use crate::parse::types::TypesItemView;
use crate::repr::Deprecation;
use crate::trans::decl::Decl;
use crate::trans::decl::DeclView;
use crate::trans::decl::spec_decl;
use crate::trans::decl::spec_first;
use crate::trans::lookup::MAX_ENTRIES;
use crate::trans::lookup::NameMap;
use crate::trans::lookup::NameMapView;
use crate::trans::lookup::api_ok;
use crate::trans::lookup::api_text_ok;
use crate::trans::lookup::find;
use crate::trans::lookup::is_result;
use crate::trans::lookup::lemma_find;
use crate::trans::lookup::lemma_found;
use crate::trans::lookup::spec_api_ok;
use crate::trans::lookup::spec_api_text_ok;
use crate::trans::lookup::spec_find;

verus! {

/// The body of a type before its references are resolved: every other type by name.
pub enum DraftBody {
    Include,
    Define,
    /// A typedef and the type it stands for, if it names one.
    Base(Option<String>),
    /// An object handle and the handle type that its objects belong to.
    Handle(Option<String>),
    /// A set of flags: the integer type that holds them, and the enumeration that names them.
    Bitmask(String, Option<String>),
    Enum,
    FnPtr,
    /// A structure: its members, the structures it extends, whether it is returned only.
    Struct(Vec<Decl>, Vec<String>, bool),
    /// A union: its members.
    Union(Vec<Decl>),
    Imported,
}

/// `DraftBody` with its strings as character sequences.
pub ghost enum DraftBodyView {
    Include,
    Define,
    Base(Option<Seq<char>>),
    Handle(Option<Seq<char>>),
    Bitmask(Seq<char>, Option<Seq<char>>),
    Enum,
    FnPtr,
    Struct(Seq<DeclView>, Seq<Seq<char>>, bool),
    Union(Seq<DeclView>),
    Imported,
}

impl DeepView for DraftBody {
    type V = DraftBodyView;

    open spec fn deep_view(&self) -> DraftBodyView {
        match *self {
            DraftBody::Include => DraftBodyView::Include,
            DraftBody::Define => DraftBodyView::Define,
            DraftBody::Base(t) => DraftBodyView::Base(t.deep_view()),
            DraftBody::Handle(p) => DraftBodyView::Handle(p.deep_view()),
            DraftBody::Bitmask(t, b) => DraftBodyView::Bitmask(t@, b.deep_view()),
            DraftBody::Enum => DraftBodyView::Enum,
            DraftBody::FnPtr => DraftBodyView::FnPtr,
            DraftBody::Struct(m, e, r) => DraftBodyView::Struct(m.deep_view(), e.deep_view(), r),
            DraftBody::Union(m) => DraftBodyView::Union(m.deep_view()),
            DraftBody::Imported => DraftBodyView::Imported,
        }
    }
}

/// A type before its references are resolved.
pub struct Draft {
    pub standard_name: String,
    pub output_name: String,
    pub deprecated: Option<Deprecation>,
    pub requires: Option<String>,
    pub body: DraftBody,
}

/// `Draft` with its strings as character sequences.
pub ghost struct DraftView {
    pub standard_name: Seq<char>,
    pub output_name: Seq<char>,
    pub deprecated: Option<Deprecation>,
    pub requires: Option<Seq<char>>,
    pub body: DraftBodyView,
}

impl DeepView for Draft {
    type V = DraftView;

    open spec fn deep_view(&self) -> DraftView {
        DraftView {
            standard_name: self.standard_name@,
            output_name: self.output_name@,
            deprecated: self.deprecated,
            requires: self.requires.deep_view(),
            body: self.body.deep_view(),
        }
    }
}

/// What the first pass comes to.
pub struct Declared {
    /// The standard names of the declared types; the type of handle `h` stands at `h - 1`.
    pub names: Vec<String>,
    /// The declared types, as drafts, in the same order.
    pub drafts: Vec<Draft>,
    /// The output names that the naming rule has given out.
    pub outputs: Vec<String>,
    /// The types that are other names for a type, each with the name it stands for.
    pub aliases: NameMap<String>,
    /// The commands that are other names for a command, each with the name it stands for.
    pub command_aliases: NameMap<String>,
}

/// `Declared` with its strings as character sequences.
pub ghost struct DeclaredView {
    pub names: Seq<Seq<char>>,
    pub drafts: Seq<DraftView>,
    pub outputs: Seq<Seq<char>>,
    pub aliases: NameMapView<Seq<char>>,
    pub command_aliases: NameMapView<Seq<char>>,
}

impl DeepView for Declared {
    type V = DeclaredView;

    open spec fn deep_view(&self) -> DeclaredView {
        DeclaredView {
            names: self.names.deep_view(),
            drafts: self.drafts.deep_view(),
            outputs: self.outputs.deep_view(),
            aliases: self.aliases.deep_view(),
            command_aliases: self.command_aliases.deep_view(),
        }
    }
}

/// Whether no two drafts that the naming rule has named share an output name. The rule names
/// every type but those that are declared outside the registry.
pub open spec fn spec_distinct(drafts: Seq<DraftView>) -> bool {
    forall|i: int, j: int|
        0 <= i < drafts.len() && 0 <= j < drafts.len() && i != j && !((
        #[trigger] drafts[i]).body is Imported) && !((#[trigger] drafts[j]).body is Imported)
            ==> drafts[i].output_name != drafts[j].output_name
}

impl DeclaredView {
    /// Nothing declared yet.
    pub open spec fn empty() -> DeclaredView {
        DeclaredView {
            names: Seq::empty(),
            drafts: Seq::empty(),
            outputs: Seq::empty(),
            aliases: NameMapView { names: Seq::empty(), values: Seq::empty() },
            command_aliases: NameMapView { names: Seq::empty(), values: Seq::empty() },
        }
    }

    /// Whether there is a draft for every name, under that name, and room for a handle for
    /// each; and whether the output names that the naming rule has given are all different.
    pub open spec fn wf(self) -> bool {
        &&& self.names.len() == self.drafts.len()
        &&& self.names.len() <= MAX_ENTRIES
        &&& self.aliases.names.len() == self.aliases.values.len()
        &&& self.command_aliases.names.len() == self.command_aliases.values.len()
        &&& forall|k: int|
            0 <= k < self.drafts.len() ==> (#[trigger] self.drafts[k]).standard_name
                == self.names[k]
        &&& forall|k: int|
            0 <= k < self.drafts.len() && !((#[trigger] self.drafts[k]).body is Imported)
                ==> spec_find(self.outputs, self.drafts[k].output_name, 0) is Some
        &&& spec_distinct(self.drafts)
    }
}

/// The members of a structure or union from `i` on, after those read so far. A member for
/// another API is left out.
pub open spec fn spec_members(items: Seq<StructItemView>, i: int, acc: Seq<DeclView>) -> Result<
    Seq<DeclView>,
    TransErrorView,
>
    decreases items.len() - i,
{
    if i < 0 || i >= items.len() {
        Ok(acc)
    } else {
        match items[i] {
            StructItemView::Member(m) => if spec_api_text_ok(m.api) {
                match spec_decl(m.items) {
                    Ok(d) => spec_members(items, i + 1, acc.push(d)),
                    Err(e) => Err(e),
                }
            } else {
                spec_members(items, i + 1, acc)
            },
            _ => spec_members(items, i + 1, acc),
        }
    }
}

/// The text of the first `type` item of a body, if it has one.
pub open spec fn spec_named_type(items: Seq<GenericItemView>) -> Option<Seq<char>> {
    match spec_first(items, GenericItemKind::Type, 0) {
        Some(k) => Some(items[k].text),
        None => None,
    }
}

/// The list, or no names where there is no list.
pub open spec fn spec_list(list: Option<Seq<Seq<char>>>) -> Seq<Seq<char>> {
    match list {
        Some(l) => l,
        None => Seq::empty(),
    }
}

/// The body of the draft of a type.
pub open spec fn spec_draft_body(t: TypeView) -> Result<DraftBodyView, TransErrorView> {
    match t.details {
        TypeDetailsView::Include(_) => Ok(DraftBodyView::Include),
        TypeDetailsView::Define(_) => Ok(DraftBodyView::Define),
        TypeDetailsView::Base(d) => Ok(DraftBodyView::Base(spec_named_type(d.items))),
        TypeDetailsView::Handle(d) => Ok(DraftBodyView::Handle(d.parent)),
        TypeDetailsView::Bitmask(d) => match spec_named_type(d.items) {
            Some(holder) => Ok(
                DraftBodyView::Bitmask(
                    holder,
                    match d.bit_values {
                        Some(b) => Some(b),
                        None => t.common.requires,
                    },
                ),
            ),
            None => Err(TransErrorView::BadType),
        },
        TypeDetailsView::Enum(_) => Ok(DraftBodyView::Enum),
        TypeDetailsView::FnPtr(_) => Ok(DraftBodyView::FnPtr),
        TypeDetailsView::Struct(d) => match spec_members(d.members, 0, Seq::empty()) {
            Ok(members) => Ok(
                DraftBodyView::Struct(
                    members,
                    spec_list(d.extends),
                    d.returned_only == Some(true),
                ),
            ),
            Err(e) => Err(e),
        },
        TypeDetailsView::Union(d) => match spec_members(d.members, 0, Seq::empty()) {
            Ok(members) => Ok(DraftBodyView::Union(members)),
            Err(e) => Err(e),
        },
        TypeDetailsView::Imported(_) => Ok(DraftBodyView::Imported),
    }
}

/// The name of a declared type in the bindings: for a type that is declared outside the
/// registry the name that the target language has for it, if it has one, else its own; for
/// any other type its name without a leading `Vk`.
pub open spec fn spec_output_name(t: TypeView) -> Seq<char> {
    if t.details is Imported {
        match spec_builtin(t.common.name) {
            Some(out) => out,
            None => t.common.name,
        }
    } else {
        spec_type_name(t.common.name)
    }
}

/// The draft of a type.
pub open spec fn spec_draft(t: TypeView) -> Result<DraftView, TransErrorView> {
    match spec_draft_body(t) {
        Ok(body) => Ok(
            DraftView {
                standard_name: t.common.name,
                output_name: spec_output_name(t),
                deprecated: t.common.deprecated,
                requires: t.common.requires,
                body,
            },
        ),
        Err(e) => Err(e),
    }
}

/// What is declared after one type. A type for another API is left out; a type that is
/// another name for a type is noted as such; any other type must have a name of its own,
/// and, unless it is declared outside the registry, an output name of its own.
pub open spec fn spec_declare_type(d: DeclaredView, t: TypeView) -> Result<
    DeclaredView,
    TransErrorView,
> {
    if !spec_api_ok(t.common.api) {
        Ok(d)
    } else if t.common.alias is Some {
        Ok(DeclaredView { aliases: d.aliases.with(t.common.name, t.common.alias->0), ..d })
    } else if spec_find(d.names, t.common.name, 0) is Some {
        Err(TransErrorView::DuplicateName(t.common.name))
    } else if !(t.details is Imported) && spec_find(d.outputs, spec_output_name(t), 0) is Some {
        Err(TransErrorView::DuplicateName(t.common.name))
    } else if d.names.len() >= MAX_ENTRIES {
        Err(TransErrorView::BadType)
    } else {
        match spec_draft(t) {
            Err(e) => Err(e),
            Ok(draft) => Ok(
                DeclaredView {
                    names: d.names.push(t.common.name),
                    drafts: d.drafts.push(draft),
                    outputs: if t.details is Imported {
                        d.outputs
                    } else {
                        d.outputs.push(spec_output_name(t))
                    },
                    ..d
                },
            ),
        }
    }
}

/// What is declared after the children of a `types` element from `i` on.
pub open spec fn spec_declare_types(d: DeclaredView, items: Seq<TypesItemView>, i: int) -> Result<
    DeclaredView,
    TransErrorView,
>
    decreases items.len() - i,
{
    if i < 0 || i >= items.len() {
        Ok(d)
    } else {
        let step = match items[i] {
            TypesItemView::Type(t) => spec_declare_type(d, t),
            _ => Ok(d),
        };
        match step {
            Err(e) => Err(e),
            Ok(d) => spec_declare_types(d, items, i + 1),
        }
    }
}

/// The command aliases after the children of a `commands` element from `i` on.
pub open spec fn spec_command_aliases(
    aliases: NameMapView<Seq<char>>,
    items: Seq<CommandsItemView>,
    i: int,
) -> NameMapView<Seq<char>>
    decreases items.len() - i,
{
    if i < 0 || i >= items.len() {
        aliases
    } else {
        match items[i] {
            CommandsItemView::Command(CommandView::Alias(a)) => spec_command_aliases(
                aliases.with(a.name, a.alias),
                items,
                i + 1,
            ),
            _ => spec_command_aliases(aliases, items, i + 1),
        }
    }
}

/// What is declared after one item of the registry.
pub open spec fn spec_declare_item(d: DeclaredView, item: RegistryItemView) -> Result<
    DeclaredView,
    TransErrorView,
> {
    match item {
        RegistryItemView::Types(t) => spec_declare_types(d, t.items, 0),
        RegistryItemView::Commands(c) => Ok(
            DeclaredView {
                command_aliases: spec_command_aliases(d.command_aliases, c.items, 0),
                ..d
            },
        ),
        _ => Ok(d),
    }
}

/// What is declared after the items of the registry from `i` on.
pub open spec fn spec_declare_items(
    d: DeclaredView,
    items: Seq<RegistryItemView>,
    i: int,
) -> Result<
    DeclaredView,
    TransErrorView,
>
    decreases items.len() - i,
{
    if i < 0 || i >= items.len() {
        Ok(d)
    } else {
        match spec_declare_item(d, items[i]) {
            Err(e) => Err(e),
            Ok(d) => spec_declare_items(d, items, i + 1),
        }
    }
}

/// The declarations of a registry.
pub open spec fn spec_declare(registry: RegistryView) -> Result<DeclaredView, TransErrorView> {
    spec_declare_items(DeclaredView::empty(), registry.items, 0)
}

/// Reads the members of a structure or union.
fn members_of(items: &Vec<StructItem>) -> (r: Result<Vec<Decl>, TransError>)
    ensures
        is_result(r, spec_members(items.deep_view(), 0, Seq::empty())),
{
    let mut acc: Vec<Decl> = Vec::new();
    let mut i: usize = 0;
    let ghost views = items.deep_view();
    proof {
        assert(acc.deep_view() =~= Seq::empty());
    }
    while i < items.len()
        invariant
            views == items.deep_view(),
            spec_members(views, i as int, acc.deep_view()) == spec_members(views, 0, Seq::empty()),
        decreases items.len() - i,
    {
        match &items[i] {
            StructItem::Member(m) => {
                if api_text_ok(&m.api) {
                    let d = Decl::from_items(&m.items)?;
                    let ghost before = acc.deep_view();
                    acc.push(d);
                    proof {
                        assert(acc.deep_view() =~= before.push(d.deep_view()));
                    }
                }
            },
            _ => {},
        }
        i += 1;
    }
    Ok(acc)
}

/// Reads the text of the first `type` item of a body.
fn named_type(items: &Vec<GenericItem>) -> (r: Option<String>)
    ensures
        r.deep_view() == spec_named_type(items.deep_view()),
{
    let mut k: usize = 0;
    while k < items.len()
        invariant
            spec_first(items.deep_view(), GenericItemKind::Type, k as int) == spec_first(
                items.deep_view(),
                GenericItemKind::Type,
                0,
            ),
        decreases items.len() - k,
    {
        if items[k].kind == GenericItemKind::Type {
            return Some(items[k].text.clone());
        }
        k += 1;
    }
    None
}

/// A copy of a list of names; no names where there is no list.
fn list_of(list: &Option<Vec<String>>) -> (r: Vec<String>)
    ensures
        r.deep_view() == spec_list(list.deep_view()),
{
    let mut out: Vec<String> = Vec::new();
    match list {
        None => {
            proof {
                assert(out.deep_view() =~= Seq::empty());
            }
        },
        Some(l) => {
            let mut i: usize = 0;
            while i < l.len()
                invariant
                    i <= l.len(),
                    out.len() == i,
                    forall|j: int| 0 <= j < i ==> out@[j]@ == l@[j]@,
                decreases l.len() - i,
            {
                out.push(l[i].clone());
                i += 1;
            }
            proof {
                assert(out.deep_view() =~= l.deep_view());
            }
        },
    }
    out
}

impl Draft {
    /// Makes the body of the draft of a type.
    fn body_of(t: &Type) -> (r: Result<DraftBody, TransError>)
        ensures
            is_result(r, spec_draft_body(t.deep_view())),
    {
        match &t.details {
            TypeDetails::Include(_) => Ok(DraftBody::Include),
            TypeDetails::Define(_) => Ok(DraftBody::Define),
            TypeDetails::Base(d) => Ok(DraftBody::Base(named_type(&d.items))),
            TypeDetails::Handle(d) => Ok(DraftBody::Handle(d.parent.clone())),
            TypeDetails::Bitmask(d) => match named_type(&d.items) {
                Some(holder) => {
                    let names = match &d.bit_values {
                        Some(b) => Some(b.clone()),
                        None => t.common.requires.clone(),
                    };
                    Ok(DraftBody::Bitmask(holder, names))
                },
                None => Err(TransError::BadType),
            },
            TypeDetails::Enum(_) => Ok(DraftBody::Enum),
            TypeDetails::FnPtr(_) => Ok(DraftBody::FnPtr),
            TypeDetails::Struct(d) => {
                let members = members_of(&d.members)?;
                let returned_only = match d.returned_only {
                    Some(b) => b,
                    None => false,
                };
                Ok(DraftBody::Struct(members, list_of(&d.extends), returned_only))
            },
            TypeDetails::Union(d) => {
                let members = members_of(&d.members)?;
                Ok(DraftBody::Union(members))
            },
            TypeDetails::Imported(_) => Ok(DraftBody::Imported),
        }
    }

    /// The name of a declared type in the bindings.
    fn output_name_of(t: &Type) -> (r: String)
        ensures
            r@ == spec_output_name(t.deep_view()),
    {
        match &t.details {
            TypeDetails::Imported(_) => match builtin(t.common.name.as_str()) {
                Some(out) => String::from_str(out),
                None => t.common.name.clone(),
            },
            _ => type_output_name(t.common.name.as_str()),
        }
    }

    /// Makes the draft of a type.
    pub fn from_type(t: &Type) -> (r: Result<Draft, TransError>)
        ensures
            is_result(r, spec_draft(t.deep_view())),
    {
        let body = Draft::body_of(t)?;
        Ok(
            Draft {
                standard_name: t.common.name.clone(),
                output_name: Draft::output_name_of(t),
                deprecated: t.common.deprecated,
                requires: t.common.requires.clone(),
                body,
            },
        )
    }
}

impl Declared {
    /// Nothing declared yet.
    pub fn new() -> (r: Declared)
        ensures
            r.deep_view() == DeclaredView::empty(),
            r.deep_view().wf(),
    {
        let r = Declared {
            names: Vec::new(),
            drafts: Vec::new(),
            outputs: Vec::new(),
            aliases: NameMap::new(),
            command_aliases: NameMap::new(),
        };
        proof {
            assert(r.names.deep_view() =~= Seq::empty());
            assert(r.drafts.deep_view() =~= Seq::empty());
            assert(r.outputs.deep_view() =~= Seq::empty());
        }
        r
    }

    /// Declares one type.
    fn declare_type(&mut self, t: &Type) -> (r: Result<(), TransError>)
        requires
            old(self).deep_view().wf(),
        ensures
            match spec_declare_type(old(self).deep_view(), t.deep_view()) {
                Ok(d) => r is Ok && final(self).deep_view() == d,
                Err(e) => r is Err && r->Err_0.deep_view() == e,
            },
            final(self).deep_view().wf(),
    {
        if !api_ok(&t.common.api) {
            return Ok(());
        }
        match &t.common.alias {
            Some(target) => {
                self.aliases.push(t.common.name.clone(), target.clone());
                return Ok(());
            },
            None => {},
        }
        if find(&self.names, t.common.name.as_str()).is_some() {
            return Err(TransError::DuplicateName(t.common.name.clone()));
        }
        let imported = match &t.details {
            TypeDetails::Imported(_) => true,
            _ => false,
        };
        let output = Draft::output_name_of(t);
        if !imported && find(&self.outputs, output.as_str()).is_some() {
            return Err(TransError::DuplicateName(t.common.name.clone()));
        }
        if self.names.len() >= MAX_ENTRIES {
            return Err(TransError::BadType);
        }
        let draft = Draft::from_type(t)?;
        let name = t.common.name.clone();
        self.names.push(name);
        self.drafts.push(draft);
        if !imported {
            self.outputs.push(output);
        }
        proof {
            let before = old(self).deep_view();
            let after = self.deep_view();
            assert(self.names.deep_view() =~= before.names.push(name@));
            assert(self.drafts.deep_view() =~= before.drafts.push(draft.deep_view()));
            if !imported {
                assert(self.outputs.deep_view() =~= before.outputs.push(output@));
            }
            let last = before.drafts.len() as int;
            assert forall|k: int|
                0 <= k < after.drafts.len() && !((#[trigger] after.drafts[k]).body
                    is Imported) implies spec_find(after.outputs, after.drafts[k].output_name, 0)
                is Some by {
                if k < last {
                    assert(after.drafts[k] == before.drafts[k]);
                    lemma_find(before.outputs, before.drafts[k].output_name, 0);
                    let m = spec_find(before.outputs, before.drafts[k].output_name, 0)->0;
                    assert(after.outputs[m] == before.outputs[m]);
                    lemma_found(after.outputs, after.drafts[k].output_name, m);
                } else {
                    lemma_found(after.outputs, output@, before.outputs.len() as int);
                }
            }
            assert forall|i: int, j: int|
                0 <= i < after.drafts.len() && 0 <= j < after.drafts.len() && i != j && !((
                #[trigger] after.drafts[i]).body is Imported) && !((
                #[trigger] after.drafts[j]).body is Imported) implies after.drafts[i].output_name
                != after.drafts[j].output_name by {
                if i < last {
                    assert(after.drafts[i] == before.drafts[i]);
                }
                if j < last {
                    assert(after.drafts[j] == before.drafts[j]);
                }
                if i == last || j == last {
                    let k = if i == last {
                        j
                    } else {
                        i
                    };
                    lemma_find(before.outputs, before.drafts[k].output_name, 0);
                    lemma_find(before.outputs, output@, 0);
                }
            }
        }
        Ok(())
    }

    /// Declares one item of the registry.
    fn declare_item(&mut self, item: &RegistryItem) -> (r: Result<(), TransError>)
        requires
            old(self).deep_view().wf(),
        ensures
            match spec_declare_item(old(self).deep_view(), item.deep_view()) {
                Ok(d) => r is Ok && final(self).deep_view() == d,
                Err(e) => r is Err && r->Err_0.deep_view() == e,
            },
            final(self).deep_view().wf(),
    {
        match item {
            RegistryItem::Types(t) => {
                let mut i: usize = 0;
                let ghost views = t.items.deep_view();
                while i < t.items.len()
                    invariant
                        views == t.items.deep_view(),
                        item.deep_view() == RegistryItemView::Types(t.deep_view()),
                        self.deep_view().wf(),
                        spec_declare_types(self.deep_view(), views, i as int)
                            == spec_declare_types(old(self).deep_view(), views, 0),
                    decreases t.items.len() - i,
                {
                    match &t.items[i] {
                        TypesItem::Type(ty) => {
                            self.declare_type(ty)?;
                        },
                        _ => {},
                    }
                    i += 1;
                }
                Ok(())
            },
            RegistryItem::Commands(c) => {
                let mut i: usize = 0;
                let ghost views = c.items.deep_view();
                while i < c.items.len()
                    invariant
                        views == c.items.deep_view(),
                        self.deep_view().wf(),
                        self.deep_view() == (DeclaredView {
                            command_aliases: self.deep_view().command_aliases,
                            ..old(self).deep_view()
                        }),
                        spec_command_aliases(self.deep_view().command_aliases, views, i as int)
                            == spec_command_aliases(
                            old(self).deep_view().command_aliases,
                            views,
                            0,
                        ),
                    decreases c.items.len() - i,
                {
                    match &c.items[i] {
                        CommandsItem::Command(Command::Alias(a)) => {
                            self.command_aliases.push(a.name.clone(), a.alias.clone());
                        },
                        _ => {},
                    }
                    i += 1;
                }
                Ok(())
            },
            _ => Ok(()),
        }
    }

    /// Declares the types of a registry and notes its aliases.
    pub fn declare(registry: &Registry) -> (r: Result<Declared, TransError>)
        ensures
            is_result(r, spec_declare(registry.deep_view())),
            r is Ok ==> r->Ok_0.deep_view().wf(),
    {
        let mut d = Declared::new();
        let mut i: usize = 0;
        let ghost views = registry.items.deep_view();
        while i < registry.items.len()
            invariant
                views == registry.items.deep_view(),
                d.deep_view().wf(),
                spec_declare_items(d.deep_view(), views, i as int) == spec_declare_items(
                    DeclaredView::empty(),
                    views,
                    0,
                ),
            decreases registry.items.len() - i,
        {
            d.declare_item(&registry.items[i])?;
            i += 1;
        }
        Ok(d)
    }
}

} // verus!
