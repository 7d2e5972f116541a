//! Enumerants, commands, and what is left out.
//!
//! Each block of enumerants takes in the patches that features make to it. Each command gets
//! its return type and parameters resolved as the members of a structure are. The kinds of
//! registry items that the bindings have no use for are noted as warnings.

use vstd::prelude::*;
use vstd::string::*;
use crate::error::TransError;
use crate::error::TransErrorView;
use crate::names::command_output_name;
use crate::names::constant_output_name;
use crate::names::spec_command_name;
use crate::names::spec_constant_name;
use crate::names::spec_type_name;
use crate::names::type_output_name;
use crate::parse::commands::CommandItem;
use crate::parse::commands::CommandItemView;
use crate::parse::commands::CommandView as ParsedCommandView;
use crate::parse::commands::CommandsItemView;
use crate::parse::commands::DefinedCommand;
use crate::parse::commands::DefinedCommandView;
use crate::parse::enums::Enum;
use crate::parse::enums::EnumDetails;
use crate::parse::enums::EnumDetailsView;
use crate::parse::enums::Enums as ParsedEnums;
use crate::parse::enums::EnumsItem;
use crate::parse::enums::EnumsItemView;
use crate::parse::enums::EnumsView as ParsedEnumsView;
use crate::parse::registry::RegistryItemView;
use crate::repr::Command;
use crate::repr::CommandCommon;
use crate::repr::CommandCommonView;
use crate::repr::CommandView;
use crate::repr::DecorType;
use crate::repr::DecorTypeView;
use crate::repr::EnumNumber;
use crate::repr::EnumNumberView;
use crate::repr::EnumValue;
use crate::repr::EnumValueView;
use crate::repr::Enums;
use crate::repr::EnumsView;
use crate::repr::TypeHandle;
use crate::repr::opt_feature_live;
use crate::text::str_eq;
use crate::trans::decl::Decl;
use crate::trans::decl::DeclView;
use crate::trans::decl::spec_decl;
use crate::trans::declare::DeclaredView;
use crate::trans::gather::GatheredView;
use crate::trans::gather::Patch;
use crate::trans::gather::PatchView;
use crate::trans::lookup::api_text_ok;
use crate::trans::lookup::find;
use crate::trans::lookup::is_result;
use crate::trans::lookup::lemma_find;
use crate::trans::lookup::spec_api_text_ok;
use crate::trans::lookup::spec_find;
use crate::trans::numbers::parse_i64;
use crate::trans::numbers::parse_u64;
use crate::trans::numbers::spec_parse_i64;
use crate::trans::numbers::spec_parse_u64;
use crate::trans::resolve::Resolver;
use crate::trans::resolve::spec_aliases_of;
use crate::trans::resolve::spec_later_features;
use crate::trans::resolve::spec_members;
use crate::trans::resolve::spec_resolve;

verus! {

/// What an enumerant of a block stands for.
pub open spec fn spec_enum_number(details: EnumDetailsView) -> Result<
    EnumNumberView,
    TransErrorView,
> {
    match details {
        EnumDetailsView::Constant(d) => Ok(EnumNumberView::Constant(d.value, d.ty)),
        EnumDetailsView::Value(d) => match spec_parse_i64(d.value) {
            Some(v) => Ok(EnumNumberView::Value(v)),
            None => Err(TransErrorView::BadType),
        },
        EnumDetailsView::Bit(d) => match spec_parse_u64(d.bit_pos) {
            Some(bit) => if bit < 64 {
                Ok(EnumNumberView::Bit(bit as u32))
            } else {
                Err(TransErrorView::BadType)
            },
            None => Err(TransErrorView::BadType),
        },
        EnumDetailsView::Alias(d) => Ok(EnumNumberView::Alias(d.alias)),
    }
}

/// The enumerants of a block from `i` on, after those read so far. An enumerant for another
/// API is left out.
pub open spec fn spec_enum_values(
    items: Seq<EnumsItemView>,
    i: int,
    acc: Seq<EnumValueView>,
) -> Result<
    Seq<EnumValueView>,
    TransErrorView,
>
    decreases items.len() - i,
{
    if i < 0 || i >= items.len() {
        Ok(acc)
    } else {
        match items[i] {
            EnumsItemView::Enum(e) => if spec_api_text_ok(e.common.api) {
                match spec_enum_number(e.details) {
                    Ok(number) => spec_enum_values(
                        items,
                        i + 1,
                        acc.push(
                            EnumValueView {
                                standard_name: e.common.name,
                                output_name: spec_constant_name(e.common.name),
                                number,
                                feature: None,
                            },
                        ),
                    ),
                    Err(err) => Err(err),
                }
            } else {
                spec_enum_values(items, i + 1, acc)
            },
            _ => spec_enum_values(items, i + 1, acc),
        }
    }
}

/// Whether an enumerant of the name stands among the values from `i` on.
pub open spec fn spec_has_value(values: Seq<EnumValueView>, name: Seq<char>, i: int) -> bool
    decreases values.len() - i,
{
    if i < 0 || i >= values.len() {
        false
    } else if values[i].standard_name == name {
        true
    } else {
        spec_has_value(values, name, i + 1)
    }
}

/// The values of the block named `target` after the patches from `i` on: each patch for the
/// block adds its enumerant, unless one of that name is there.
pub open spec fn spec_patched(
    values: Seq<EnumValueView>,
    patches: Seq<PatchView>,
    target: Seq<char>,
    i: int,
) -> Seq<EnumValueView>
    decreases patches.len() - i,
{
    if i < 0 || i >= patches.len() {
        values
    } else if patches[i].target == target && !spec_has_value(
        values,
        patches[i].value.standard_name,
        0,
    ) {
        spec_patched(values.push(patches[i].value), patches, target, i + 1)
    } else {
        spec_patched(values, patches, target, i + 1)
    }
}

/// The block of enumerants that a parsed block comes to.
pub open spec fn spec_enums(d: DeclaredView, g: GatheredView, e: ParsedEnumsView) -> Result<
    EnumsView,
    TransErrorView,
> {
    match spec_enum_values(e.contents, 0, Seq::empty()) {
        Err(err) => Err(err),
        Ok(values) => Ok(
            EnumsView {
                standard_name: e.name,
                output_name: spec_type_name(e.name),
                kind: e.ty,
                bit_width: if e.bit_width == Some("64"@) {
                    64u32
                } else {
                    32u32
                },
                handle: match spec_find(d.names, e.name, 0) {
                    Some(k) => Some(TypeHandle((k + 1) as usize)),
                    None => None,
                },
                values: spec_patched(values, g.patches, e.name, 0),
            },
        ),
    }
}

/// The declarations of the parameters from `i` on, after those read so far. A parameter for
/// another API is left out.
pub open spec fn spec_params(items: Seq<CommandItemView>, i: int, acc: Seq<DeclView>) -> Result<
    Seq<DeclView>,
    TransErrorView,
>
    decreases items.len() - i,
{
    if i < 0 || i >= items.len() {
        Ok(acc)
    } else {
        match items[i] {
            CommandItemView::Param(p) => if spec_api_text_ok(p.api) {
                match spec_decl(p.items) {
                    Ok(d) => spec_params(items, i + 1, acc.push(d)),
                    Err(e) => Err(e),
                }
            } else {
                spec_params(items, i + 1, acc)
            },
            _ => spec_params(items, i + 1, acc),
        }
    }
}

/// The command that a parsed command comes to, and the built-in names in use after it. A
/// command for another API comes to nothing.
pub open spec fn spec_command(
    d: DeclaredView,
    g: GatheredView,
    extra: Seq<Seq<char>>,
    c: DefinedCommandView,
) -> Result<(Option<CommandView>, Seq<Seq<char>>), TransErrorView> {
    if !spec_api_text_ok(c.api) {
        Ok((None, extra))
    } else {
        match spec_decl(c.proto.items) {
            Err(e) => Err(e),
            Ok(proto) => match spec_resolve(d, extra, proto.base) {
                Err(e) => Err(e),
                Ok((handle, extra)) => match spec_params(c.items, 0, Seq::empty()) {
                    Err(e) => Err(e),
                    Ok(decls) => match spec_members(d, extra, decls, 0, Seq::empty()) {
                        Err(e) => Err(e),
                        Ok((params, extra)) => Ok(
                            (
                                Some(
                                    CommandView {
                                        head: CommandCommonView {
                                            standard_name: proto.name,
                                            output_name: spec_command_name(proto.name),
                                            standard_aliases: spec_aliases_of(
                                                d.command_aliases,
                                                proto.name,
                                                0,
                                                Seq::empty(),
                                            ),
                                            feature: g.commands.get(proto.name),
                                            later_features: spec_later_features(
                                                g.commands,
                                                proto.name,
                                            ),
                                        },
                                        returns: DecorTypeView {
                                            handle,
                                            decors: proto.decors,
                                            array: proto.array,
                                        },
                                        params,
                                    },
                                ),
                                extra,
                            ),
                        ),
                    },
                },
            },
        }
    }
}

/// What the items of a registry come to besides its types.
pub struct Lowered {
    pub enums: Vec<Enums>,
    pub commands: Vec<Command>,
    /// The kinds of registry items that were left out, each once.
    pub warnings: Vec<String>,
}

/// `Lowered` with its strings as character sequences.
pub ghost struct LoweredView {
    pub enums: Seq<EnumsView>,
    pub commands: Seq<CommandView>,
    pub warnings: Seq<Seq<char>>,
}

impl DeepView for Lowered {
    type V = LoweredView;

    open spec fn deep_view(&self) -> LoweredView {
        LoweredView {
            enums: self.enums.deep_view(),
            commands: self.commands.deep_view(),
            warnings: self.warnings.deep_view(),
        }
    }
}

impl LoweredView {
    /// Nothing lowered yet.
    pub open spec fn empty() -> LoweredView {
        LoweredView { enums: Seq::empty(), commands: Seq::empty(), warnings: Seq::empty() }
    }

    /// Whether every handle that stands in the enumerants and commands is live among `n`
    /// types and `f` features.
    pub open spec fn live(self, n: nat, f: nat) -> bool {
        &&& forall|i: int| 0 <= i < self.enums.len() ==> (#[trigger] self.enums[i]).live(n, f)
        &&& forall|i: int| 0 <= i < self.commands.len() ==> (#[trigger] self.commands[i]).live(n, f)
    }
}

/// The commands after the children of a `commands` element from `i` on, and the built-in
/// names in use after them.
pub open spec fn spec_commands(
    d: DeclaredView,
    g: GatheredView,
    extra: Seq<Seq<char>>,
    items: Seq<CommandsItemView>,
    i: int,
    acc: Seq<CommandView>,
) -> Result<(Seq<CommandView>, Seq<Seq<char>>), TransErrorView>
    decreases items.len() - i,
{
    if i < 0 || i >= items.len() {
        Ok((acc, extra))
    } else {
        match items[i] {
            CommandsItemView::Command(ParsedCommandView::Defined(c)) => match spec_command(
                d,
                g,
                extra,
                c,
            ) {
                Err(e) => Err(e),
                Ok((Some(c), extra)) => spec_commands(d, g, extra, items, i + 1, acc.push(c)),
                Ok((None, extra)) => spec_commands(d, g, extra, items, i + 1, acc),
            },
            _ => spec_commands(d, g, extra, items, i + 1, acc),
        }
    }
}

/// The warning that a registry item gives, if the bindings leave its kind out.
pub open spec fn spec_warning(item: RegistryItemView) -> Option<Seq<char>> {
    match item {
        RegistryItemView::Tags(_) => Some("tags"@),
        RegistryItemView::Formats(_) => Some("formats"@),
        RegistryItemView::SpirvExtensions(_) => Some("spirvextensions"@),
        RegistryItemView::SpirvCapabilities(_) => Some("spirvcapabilities"@),
        RegistryItemView::Sync(_) => Some("sync"@),
        RegistryItemView::VideoCodecs(_) => Some("videocodecs"@),
        _ => None,
    }
}

/// What is lowered after one item of the registry, and the built-in names in use after it.
pub open spec fn spec_lower_item(
    d: DeclaredView,
    g: GatheredView,
    extra: Seq<Seq<char>>,
    l: LoweredView,
    item: RegistryItemView,
) -> Result<(LoweredView, Seq<Seq<char>>), TransErrorView> {
    match item {
        RegistryItemView::Enums(e) => match spec_enums(d, g, e) {
            Ok(e) => Ok((LoweredView { enums: l.enums.push(e), ..l }, extra)),
            Err(err) => Err(err),
        },
        RegistryItemView::Commands(c) => match spec_commands(
            d,
            g,
            extra,
            c.items,
            0,
            l.commands,
        ) {
            Ok((commands, extra)) => Ok((LoweredView { commands, ..l }, extra)),
            Err(err) => Err(err),
        },
        _ => match spec_warning(item) {
            Some(w) => if spec_find(l.warnings, w, 0) is Some {
                Ok((l, extra))
            } else {
                Ok((LoweredView { warnings: l.warnings.push(w), ..l }, extra))
            },
            None => Ok((l, extra)),
        },
    }
}

/// What is lowered after the items of the registry from `i` on.
pub open spec fn spec_lower_items(
    d: DeclaredView,
    g: GatheredView,
    extra: Seq<Seq<char>>,
    l: LoweredView,
    items: Seq<RegistryItemView>,
    i: int,
) -> Result<(LoweredView, Seq<Seq<char>>), TransErrorView>
    decreases items.len() - i,
{
    if i < 0 || i >= items.len() {
        Ok((l, extra))
    } else {
        match spec_lower_item(d, g, extra, l, items[i]) {
            Err(e) => Err(e),
            Ok((l, extra)) => spec_lower_items(d, g, extra, l, items, i + 1),
        }
    }
}

/// Reads what an enumerant of a block stands for.
fn enum_number(details: &EnumDetails) -> (r: Result<EnumNumber, TransError>)
    ensures
        is_result(r, spec_enum_number(details.deep_view())),
{
    match details {
        EnumDetails::Constant(d) => Ok(EnumNumber::Constant(d.value.clone(), d.ty.clone())),
        EnumDetails::Value(d) => match parse_i64(d.value.as_str()) {
            Some(v) => Ok(EnumNumber::Value(v)),
            None => Err(TransError::BadType),
        },
        EnumDetails::Bit(d) => match parse_u64(d.bit_pos.as_str()) {
            Some(bit) => if bit < 64 {
                Ok(EnumNumber::Bit(bit as u32))
            } else {
                Err(TransError::BadType)
            },
            None => Err(TransError::BadType),
        },
        EnumDetails::Alias(d) => Ok(EnumNumber::Alias(d.alias.clone())),
    }
}

/// Reads the enumerants of a block.
fn enum_values(items: &Vec<EnumsItem>) -> (r: Result<Vec<EnumValue>, TransError>)
    ensures
        is_result(r, spec_enum_values(items.deep_view(), 0, Seq::empty())),
        r is Ok ==> forall|k: int|
            0 <= k < r->Ok_0.deep_view().len() ==> (#[trigger] r->Ok_0.deep_view()[k]).feature
                is None,
{
    let mut acc: Vec<EnumValue> = Vec::new();
    let mut i: usize = 0;
    let ghost views = items.deep_view();
    proof {
        assert(acc.deep_view() =~= Seq::empty());
    }
    while i < items.len()
        invariant
            views == items.deep_view(),
            forall|k: int|
                0 <= k < acc.deep_view().len() ==> (#[trigger] acc.deep_view()[k]).feature is None,
            spec_enum_values(views, i as int, acc.deep_view()) == spec_enum_values(
                views,
                0,
                Seq::empty(),
            ),
        decreases items.len() - i,
    {
        match &items[i] {
            EnumsItem::Enum(e) => {
                if api_text_ok(&e.common.api) {
                    let number = enum_number(&e.details)?;
                    let value = EnumValue {
                        standard_name: e.common.name.clone(),
                        output_name: constant_output_name(e.common.name.as_str()),
                        number,
                        feature: None,
                    };
                    let ghost before = acc.deep_view();
                    acc.push(value);
                    proof {
                        assert(acc.deep_view() =~= before.push(value.deep_view()));
                        assert forall|k: int| 0 <= k < acc.deep_view().len() implies (
                        #[trigger] acc.deep_view()[k]).feature is None by {
                            if k < before.len() {
                                assert(acc.deep_view()[k] == before[k]);
                            }
                        }
                    }
                }
            },
            _ => {},
        }
        i += 1;
    }
    Ok(acc)
}

/// Whether an enumerant of the name stands among the values.
fn has_value(values: &Vec<EnumValue>, name: &str) -> (r: bool)
    ensures
        r == spec_has_value(values.deep_view(), name@, 0),
{
    let mut i: usize = 0;
    while i < values.len()
        invariant
            spec_has_value(values.deep_view(), name@, i as int) == spec_has_value(
                values.deep_view(),
                name@,
                0,
            ),
        decreases values.len() - i,
    {
        if str_eq(values[i].standard_name.as_str(), name) {
            return true;
        }
        i += 1;
    }
    false
}

/// A copy of what an enumerant stands for.
fn copy_number(n: &EnumNumber) -> (r: EnumNumber)
    ensures
        r.deep_view() == n.deep_view(),
{
    match n {
        EnumNumber::Value(v) => EnumNumber::Value(*v),
        EnumNumber::Bit(b) => EnumNumber::Bit(*b),
        EnumNumber::Alias(a) => EnumNumber::Alias(a.clone()),
        EnumNumber::Constant(v, t) => EnumNumber::Constant(v.clone(), t.clone()),
    }
}

/// Adds to the values of a block the enumerants that patches give it.
fn patched(values: Vec<EnumValue>, patches: &Vec<Patch>, target: &str, Ghost(f): Ghost<nat>) -> (r:
    Vec<EnumValue>)
    requires
        forall|k: int|
            0 <= k < values.deep_view().len() ==> opt_feature_live(
                (#[trigger] values.deep_view()[k]).feature,
                f,
            ),
        forall|k: int|
            0 <= k < patches.deep_view().len() ==> opt_feature_live(
                (#[trigger] patches.deep_view()[k]).value.feature,
                f,
            ),
    ensures
        r.deep_view() == spec_patched(values.deep_view(), patches.deep_view(), target@, 0),
        forall|k: int|
            0 <= k < r.deep_view().len() ==> opt_feature_live(
                (#[trigger] r.deep_view()[k]).feature,
                f,
            ),
{
    let mut acc = values;
    let mut i: usize = 0;
    let ghost views = patches.deep_view();
    while i < patches.len()
        invariant
            views == patches.deep_view(),
            forall|k: int|
                0 <= k < acc.deep_view().len() ==> opt_feature_live(
                    (#[trigger] acc.deep_view()[k]).feature,
                    f,
                ),
            forall|k: int|
                0 <= k < views.len() ==> opt_feature_live((#[trigger] views[k]).value.feature, f),
            spec_patched(acc.deep_view(), views, target@, i as int) == spec_patched(
                values.deep_view(),
                views,
                target@,
                0,
            ),
        decreases patches.len() - i,
    {
        let p = &patches[i];
        proof {
            assert(views[i as int] == p.deep_view());
        }
        if str_eq(p.target.as_str(), target) && !has_value(&acc, p.value.standard_name.as_str()) {
            let value = EnumValue {
                standard_name: p.value.standard_name.clone(),
                output_name: p.value.output_name.clone(),
                number: copy_number(&p.value.number),
                feature: p.value.feature,
            };
            let ghost before = acc.deep_view();
            acc.push(value);
            proof {
                assert(acc.deep_view() =~= before.push(value.deep_view()));
                assert forall|k: int| 0 <= k < acc.deep_view().len() implies opt_feature_live(
                    (#[trigger] acc.deep_view()[k]).feature,
                    f,
                ) by {
                    if k < before.len() {
                        assert(acc.deep_view()[k] == before[k]);
                    }
                }
            }
        }
        i += 1;
    }
    acc
}

/// Reads the declarations of the parameters of a command.
fn params_of(items: &Vec<CommandItem>) -> (r: Result<Vec<Decl>, TransError>)
    ensures
        is_result(r, spec_params(items.deep_view(), 0, Seq::empty())),
{
    let mut acc: Vec<Decl> = Vec::new();
    let mut i: usize = 0;
    let ghost views = items.deep_view();
    proof {
        assert(acc.deep_view() =~= Seq::empty());
    }
    while i < items.len()
        invariant
            views == items.deep_view(),
            spec_params(views, i as int, acc.deep_view()) == spec_params(views, 0, Seq::empty()),
        decreases items.len() - i,
    {
        match &items[i] {
            CommandItem::Param(p) => {
                if api_text_ok(&p.api) {
                    let d = Decl::from_items(&p.items)?;
                    let ghost before = acc.deep_view();
                    acc.push(d);
                    proof {
                        assert(acc.deep_view() =~= before.push(d.deep_view()));
                    }
                }
            },
            _ => {},
        }
        i += 1;
    }
    Ok(acc)
}

impl<'a> Resolver<'a> {
    /// Lowers a block of enumerants.
    pub(crate) fn enums(&self, e: &ParsedEnums) -> (r: Result<Enums, TransError>)
        requires
            self.wf(),
        ensures
            is_result(
                r,
                spec_enums(self.declared.deep_view(), self.gathered.deep_view(), e.deep_view()),
            ),
            r is Ok ==> r->Ok_0.deep_view().live(
                self.declared.names.len() as nat,
                self.gathered.features.len() as nat,
            ),
    {
        let values = enum_values(&e.contents)?;
        let values = patched(
            values,
            &self.gathered.patches,
            e.name.as_str(),
            Ghost(self.gathered.features.len() as nat),
        );
        let bit_width: u32 = match &e.bit_width {
            Some(w) => if str_eq(w.as_str(), "64") {
                64
            } else {
                32
            },
            None => 32,
        };
        let handle = match find(&self.declared.names, e.name.as_str()) {
            Some(k) => Some(TypeHandle(k + 1)),
            None => None,
        };
        Ok(
            Enums {
                standard_name: e.name.clone(),
                output_name: type_output_name(e.name.as_str()),
                kind: e.ty,
                bit_width,
                handle,
                values,
            },
        )
    }

    /// Lowers a command.
    pub(crate) fn command(&mut self, c: &DefinedCommand) -> (r: Result<Option<Command>, TransError>)
        requires
            old(self).wf(),
        ensures
            match spec_command(
                old(self).declared.deep_view(),
                old(self).gathered.deep_view(),
                old(self).extra.deep_view(),
                c.deep_view(),
            ) {
                Ok((command, extra)) => r is Ok
                    && r->Ok_0.deep_view() == command
                    && final(self).extra.deep_view() == extra
                    && (command is Some ==> command->0.live(
                    final(self).count(),
                    final(self).gathered.features.len() as nat,
                )),
                Err(e) => r is Err && r->Err_0.deep_view() == e,
            },
            final(self).wf(),
            final(self).declared == old(self).declared,
            final(self).gathered == old(self).gathered,
            old(self).count() <= final(self).count(),
    {
        if !api_text_ok(&c.api) {
            return Ok(None);
        }
        let proto = Decl::from_items(&c.proto.items)?;
        let handle = self.resolve(proto.base.as_str())?;
        let decls = params_of(&c.items)?;
        let params = self.members(&decls)?;
        let feature = Self::feature_of(&self.gathered.commands, proto.name.as_str());
        proof {
            let g = self.gathered.deep_view();
            if feature is Some {
                let k = spec_find(g.commands.names, proto.name@, 0)->0;
                lemma_find(g.commands.names, proto.name@, 0);
                assert(g.commands.values[k].live(g.features.len()));
            }
        }
        let later_features = Self::later_features_of(
            &self.gathered.commands,
            proto.name.as_str(),
            Ghost(self.gathered.features.len() as nat),
        );
        let aliases = Self::aliases_of(&self.declared.command_aliases, proto.name.as_str());
        let output_name = command_output_name(proto.name.as_str());
        let Decl { base: _, name, decors, array } = proto;
        proof {
            assert(decors.deep_view() =~= proto.decors.deep_view());
        }
        Ok(
            Some(
                Command {
                    head: CommandCommon {
                        standard_name: name,
                        output_name,
                        standard_aliases: aliases,
                        feature,
                        later_features,
                    },
                    returns: DecorType { handle, decors, array },
                    params,
                },
            ),
        )
    }
}

} // verus!
