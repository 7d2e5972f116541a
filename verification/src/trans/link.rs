//! The linker as a whole: declaration, features, resolution, and the finished registry.

use vstd::prelude::*;
use vstd::string::*;
use crate::error::TransError;
use crate::error::TransErrorView;
use crate::parse::registry::Registry;
use crate::parse::registry::RegistryItem;
use crate::parse::registry::RegistryItemView;
use crate::parse::registry::RegistryView;
use crate::parse::commands::Command as ParsedCommand;
use crate::parse::commands::CommandsItem;
use crate::repr::Command;
use crate::repr::CommandView;
use crate::repr::EnumsView;
use crate::repr::Type;
use crate::repr::TypeDetails;
use crate::repr::TypeDetailsView;
use crate::repr::TypeHandle;
use crate::repr::TypeTable;
use crate::repr::TypeTableView;
use crate::repr::TypeView;
use crate::repr::Vulkan;
use crate::repr::VulkanView;
use crate::trans::declare::Declared;
use crate::trans::declare::DeclaredView;
use crate::trans::declare::spec_declare;
use crate::trans::gather::Gathered;
use crate::trans::gather::GatheredView;
use crate::trans::gather::spec_gather;
use crate::names::lemma_result_is_not_builtin;
use crate::trans::lookup::find;
use crate::trans::lookup::is_result;
use crate::trans::lookup::lemma_find;
use crate::trans::lookup::spec_find;
use crate::trans::lower::Lowered;
use crate::trans::lower::LoweredView;
use crate::trans::lower::spec_commands;
use crate::trans::lower::spec_lower_item;
use crate::trans::lower::spec_lower_items;
use crate::trans::lower::spec_warning;
use crate::trans::order::rank_types;
use crate::trans::order::spec_can_rank;
use crate::trans::resolve::Resolver;
use crate::trans::resolve::lemma_live_grows;
use crate::trans::resolve::spec_builtin_types;
use crate::trans::resolve::spec_types;

verus! {

/// The categories of types that the registry keeps a list of.
#[derive(Debug, Clone, Copy, PartialEq, Eq, Structural)]
pub enum Category {
    Struct,
    Union,
    Enum,
    Bitmask,
}

/// Whether a body is of a category.
pub open spec fn spec_is_category(body: TypeDetailsView, category: Category) -> bool {
    match category {
        Category::Struct => body is Struct,
        Category::Union => body is Union,
        Category::Enum => body is Enum,
        Category::Bitmask => body is Bitmask,
    }
}

/// The handles of the types of a category from index `i` on, after those found so far.
pub open spec fn spec_category(
    types: Seq<TypeView>,
    category: Category,
    i: int,
    acc: Seq<TypeHandle>,
) -> Seq<TypeHandle>
    decreases types.len() - i,
{
    if i < 0 || i >= types.len() {
        acc
    } else if spec_is_category(types[i].body, category) {
        spec_category(types, category, i + 1, acc.push(TypeHandle((i + 1) as usize)))
    } else {
        spec_category(types, category, i + 1, acc)
    }
}

/// The handle of the result type: that of the declared type named `VkResult`.
pub open spec fn spec_result_type(d: DeclaredView) -> Option<TypeHandle> {
    match spec_find(d.names, "VkResult"@, 0) {
        Some(k) => Some(TypeHandle((k + 1) as usize)),
        None => None,
    }
}

/// The type table over the given types.
pub open spec fn spec_table(d: DeclaredView, types: Seq<TypeView>) -> TypeTableView {
    TypeTableView {
        items: types,
        struct_types: spec_category(types, Category::Struct, 0, Seq::empty()),
        union_types: spec_category(types, Category::Union, 0, Seq::empty()),
        enum_types: spec_category(types, Category::Enum, 0, Seq::empty()),
        bitmask_types: spec_category(types, Category::Bitmask, 0, Seq::empty()),
        result_type: spec_result_type(d),
    }
}

/// The indexed registry that a parsed registry comes to.
///
/// The types are declared in source order, the features gathered, the types resolved, the
/// enumerants and commands lowered; the built-in names in use get their types last. A
/// registry in which a record holds itself by value is refused as a bad type.
pub open spec fn spec_link(registry: RegistryView) -> Result<VulkanView, TransErrorView> {
    match spec_declare(registry) {
        Err(e) => Err(e),
        Ok(d) => match spec_gather(registry) {
            Err(e) => Err(e),
            Ok(g) => match spec_types(d, g, Seq::empty(), 0, Seq::empty()) {
                Err(e) => Err(e),
                Ok((types, extra)) => match spec_lower_items(
                    d,
                    g,
                    extra,
                    LoweredView::empty(),
                    registry.items,
                    0,
                ) {
                    Err(e) => Err(e),
                    Ok((l, extra)) => {
                        let types = spec_builtin_types(types, extra, 0);
                        if spec_can_rank(types) {
                            Ok(
                                VulkanView {
                                    types: spec_table(d, types),
                                    enums: l.enums,
                                    commands: l.commands,
                                    features: g.features,
                                    warnings: l.warnings,
                                },
                            )
                        } else {
                            Err(TransErrorView::BadType)
                        }
                    },
                },
            },
        },
    }
}

/// A command whose handles are live among some types is live among more.
proof fn lemma_command_live_grows(c: CommandView, n: nat, m: nat, f: nat)
    requires
        c.live(n, f),
        n <= m,
    ensures
        c.live(m, f),
{
    assert forall|i: int| 0 <= i < c.params.len() implies (
    #[trigger] c.params[i]).decor_type.handle.live(m) by {}
}

/// A block of enumerants whose handles are live among some types is live among more.
proof fn lemma_enums_live_grows(e: EnumsView, n: nat, m: nat, f: nat)
    requires
        e.live(n, f),
        n <= m,
    ensures
        e.live(m, f),
{
}

/// What is lowered stays live as the types grow in number.
proof fn lemma_lowered_live_grows(l: LoweredView, n: nat, m: nat, f: nat)
    requires
        l.live(n, f),
        n <= m,
    ensures
        l.live(m, f),
{
    assert forall|i: int| 0 <= i < l.enums.len() implies (#[trigger] l.enums[i]).live(m, f) by {
        lemma_enums_live_grows(l.enums[i], n, m, f);
    }
    assert forall|i: int| 0 <= i < l.commands.len() implies (#[trigger] l.commands[i]).live(
        m,
        f,
    ) by {
        lemma_command_live_grows(l.commands[i], n, m, f);
    }
}

/// Whether a body is of a category.
fn is_category(body: &TypeDetails, category: Category) -> (r: bool)
    ensures
        r == spec_is_category(body.deep_view(), category),
{
    match category {
        Category::Struct => match body {
            TypeDetails::Struct(_) => true,
            _ => false,
        },
        Category::Union => match body {
            TypeDetails::Union(_) => true,
            _ => false,
        },
        Category::Enum => match body {
            TypeDetails::Enum(_) => true,
            _ => false,
        },
        Category::Bitmask => match body {
            TypeDetails::Bitmask(_) => true,
            _ => false,
        },
    }
}

/// Lists the handles of the types of a category.
fn handles_of(types: &Vec<Type>, category: Category) -> (r: Vec<TypeHandle>)
    requires
        types.len() < usize::MAX,
    ensures
        r.deep_view() == spec_category(types.deep_view(), category, 0, Seq::empty()),
        forall|k: int|
            0 <= k < r.deep_view().len() ==> {
                let h = #[trigger] r.deep_view()[k];
                h.live(types.len() as nat) && spec_is_category(
                    types.deep_view()[h.0 - 1].body,
                    category,
                )
            },
{
    let mut acc: Vec<TypeHandle> = Vec::new();
    let mut i: usize = 0;
    let ghost views = types.deep_view();
    proof {
        assert(acc.deep_view() =~= Seq::empty());
    }
    while i < types.len()
        invariant
            views == types.deep_view(),
            types.len() < usize::MAX,
            i <= types.len(),
            forall|k: int|
                0 <= k < acc.deep_view().len() ==> {
                    let h = #[trigger] acc.deep_view()[k];
                    h.live(types.len() as nat) && spec_is_category(views[h.0 - 1].body, category)
                },
            spec_category(views, category, i as int, acc.deep_view()) == spec_category(
                views,
                category,
                0,
                Seq::empty(),
            ),
        decreases types.len() - i,
    {
        proof {
            assert(views[i as int] == types@[i as int].deep_view());
        }
        if is_category(&types[i].body, category) {
            let ghost before = acc.deep_view();
            let h = TypeHandle(i + 1);
            acc.push(h);
            proof {
                assert(acc.deep_view() =~= before.push(h));
                assert forall|k: int| 0 <= k < acc.deep_view().len() implies {
                    let h = #[trigger] acc.deep_view()[k];
                    h.live(types.len() as nat) && spec_is_category(views[h.0 - 1].body, category)
                } by {
                    if k < before.len() {
                        assert(acc.deep_view()[k] == before[k]);
                    }
                }
            }
        }
        i += 1;
    }
    acc
}

impl Lowered {
    /// Nothing lowered yet.
    fn new() -> (r: Lowered)
        ensures
            r.deep_view() == LoweredView::empty(),
    {
        let r = Lowered { enums: Vec::new(), commands: Vec::new(), warnings: Vec::new() };
        proof {
            assert(r.enums.deep_view() =~= Seq::empty());
            assert(r.commands.deep_view() =~= Seq::empty());
            assert(r.warnings.deep_view() =~= Seq::empty());
        }
        r
    }

    /// Notes the kind of an item that is left out.
    fn warning(item: &RegistryItem) -> (r: Option<&'static str>)
        ensures
            r.deep_view() == spec_warning(item.deep_view()),
    {
        match item {
            RegistryItem::Tags(_) => Some("tags"),
            RegistryItem::Formats(_) => Some("formats"),
            RegistryItem::SpirvExtensions(_) => Some("spirvextensions"),
            RegistryItem::SpirvCapabilities(_) => Some("spirvcapabilities"),
            RegistryItem::Sync(_) => Some("sync"),
            RegistryItem::VideoCodecs(_) => Some("videocodecs"),
            _ => None,
        }
    }

    /// Lowers one item of the registry.
    fn lower_item(&mut self, resolver: &mut Resolver, item: &RegistryItem) -> (r: Result<
        (),
        TransError,
    >)
        requires
            old(resolver).wf(),
            old(self).deep_view().live(
                old(resolver).count(),
                old(resolver).gathered.features.len() as nat,
            ),
        ensures
            match spec_lower_item(
                old(resolver).declared.deep_view(),
                old(resolver).gathered.deep_view(),
                old(resolver).extra.deep_view(),
                old(self).deep_view(),
                item.deep_view(),
            ) {
                Ok((l, extra)) => r is Ok
                    && final(self).deep_view() == l
                    && final(resolver).extra.deep_view() == extra,
                Err(e) => r is Err && r->Err_0.deep_view() == e,
            },
            final(resolver).wf(),
            final(resolver).declared == old(resolver).declared,
            final(resolver).gathered == old(resolver).gathered,
            old(resolver).count() <= final(resolver).count(),
            final(self).deep_view().live(
                final(resolver).count(),
                final(resolver).gathered.features.len() as nat,
            ),
    {
        let ghost f = resolver.gathered.features.len() as nat;
        match item {
            RegistryItem::Enums(e) => {
                let block = resolver.enums(e)?;
                let ghost before = self.deep_view();
                self.enums.push(block);
                proof {
                    assert(self.enums.deep_view() =~= before.enums.push(block.deep_view()));
                    lemma_enums_live_grows(
                        block.deep_view(),
                        resolver.declared.names.len() as nat,
                        resolver.count(),
                        f,
                    );
                    assert forall|k: int| 0 <= k < self.deep_view().enums.len() implies (
                    #[trigger] self.deep_view().enums[k]).live(resolver.count(), f) by {
                        if k < before.enums.len() {
                            assert(self.deep_view().enums[k] == before.enums[k]);
                        }
                    }
                }
                Ok(())
            },
            RegistryItem::Commands(c) => {
                let mut i: usize = 0;
                let ghost views = c.items.deep_view();
                let ghost d = resolver.declared.deep_view();
                let ghost g = resolver.gathered.deep_view();
                while i < c.items.len()
                    invariant
                        views == c.items.deep_view(),
                        item.deep_view() == RegistryItemView::Commands(c.deep_view()),
                        d == resolver.declared.deep_view(),
                        g == resolver.gathered.deep_view(),
                        f == resolver.gathered.features.len() as nat,
                        resolver.wf(),
                        resolver.declared == old(resolver).declared,
                        resolver.gathered == old(resolver).gathered,
                        old(resolver).count() <= resolver.count(),
                        self.deep_view().live(resolver.count(), f),
                        self.deep_view() == (LoweredView {
                            commands: self.deep_view().commands,
                            ..old(self).deep_view()
                        }),
                        spec_commands(
                            d,
                            g,
                            resolver.extra.deep_view(),
                            views,
                            i as int,
                            self.deep_view().commands,
                        ) == spec_commands(
                            d,
                            g,
                            old(resolver).extra.deep_view(),
                            views,
                            0,
                            old(self).deep_view().commands,
                        ),
                    decreases c.items.len() - i,
                {
                    match &c.items[i] {
                        CommandsItem::Command(ParsedCommand::Defined(defined)) => {
                            let ghost before = self.deep_view();
                            let ghost count = resolver.count();
                            match resolver.command(defined)? {
                                Some(command) => {
                                    self.commands.push(command);
                                    proof {
                                        assert(self.commands.deep_view() =~= before.commands.push(
                                            command.deep_view(),
                                        ));
                                        lemma_lowered_live_grows(
                                            before,
                                            count,
                                            resolver.count(),
                                            f,
                                        );
                                        assert forall|k: int|
                                            0 <= k < self.deep_view().commands.len() implies (
                                        #[trigger] self.deep_view().commands[k]).live(
                                            resolver.count(),
                                            f,
                                        ) by {
                                            if k < before.commands.len() {
                                                assert(self.deep_view().commands[k]
                                                    == before.commands[k]);
                                            }
                                        }
                                    }
                                },
                                None => {
                                    proof {
                                        lemma_lowered_live_grows(
                                            before,
                                            count,
                                            resolver.count(),
                                            f,
                                        );
                                    }
                                },
                            }
                        },
                        _ => {},
                    }
                    i += 1;
                }
                Ok(())
            },
            _ => {
                match Lowered::warning(item) {
                    Some(w) => {
                        if find(&self.warnings, w).is_none() {
                            let ghost before = self.deep_view();
                            self.warnings.push(String::from_str(w));
                            proof {
                                assert(self.warnings.deep_view() =~= before.warnings.push(w@));
                            }
                        }
                    },
                    None => {},
                }
                Ok(())
            },
        }
    }
}

impl Vulkan {
    /// Links a parsed registry.
    ///
    /// On success every handle in the result refers to a live entry of its table.
    pub fn try_from(value: Registry) -> (r: Result<Vulkan, TransError>)
        ensures
            is_result(r, spec_link(value.deep_view())),
            r is Ok ==> r->Ok_0.deep_view().wf(),
    {
        let declared = Declared::declare(&value)?;
        let gathered = Gathered::gather(&value)?;
        let ghost d = declared.deep_view();
        let ghost g = gathered.deep_view();
        let ghost f = gathered.features.len() as nat;
        let mut resolver = Resolver::new(&declared, &gathered);
        let types = resolver.resolve_types()?;
        let ghost resolved = types.deep_view();
        let ghost count = resolver.count();
        let mut lowered = Lowered::new();
        let mut i: usize = 0;
        let ghost views = value.items.deep_view();
        let ghost extra0 = resolver.extra.deep_view();
        while i < value.items.len()
            invariant
                views == value.items.deep_view(),
                d == resolver.declared.deep_view(),
                g == resolver.gathered.deep_view(),
                f == resolver.gathered.features.len() as nat,
                resolver.wf(),
                resolver.declared == &declared,
                resolver.gathered == &gathered,
                count <= resolver.count(),
                lowered.deep_view().live(resolver.count(), f),
                spec_declare(value.deep_view()) == Ok::<DeclaredView, TransErrorView>(d),
                spec_gather(value.deep_view()) == Ok::<GatheredView, TransErrorView>(g),
                spec_types(d, g, Seq::empty(), 0, Seq::empty()) == Ok::<
                    (Seq<TypeView>, Seq<Seq<char>>),
                    TransErrorView,
                >((resolved, extra0)),
                spec_lower_items(
                    d,
                    g,
                    resolver.extra.deep_view(),
                    lowered.deep_view(),
                    views,
                    i as int,
                ) == spec_lower_items(d, g, extra0, LoweredView::empty(), views, 0),
            decreases value.items.len() - i,
        {
            lowered.lower_item(&mut resolver, &value.items[i])?;
            i += 1;
        }
        proof {
            assert forall|k: int| 0 <= k < resolved.len() implies (#[trigger] resolved[k]).live(
                resolver.count(),
                f,
            ) by {
                lemma_live_grows(resolved[k], count, resolver.count(), f);
            }
        }
        let types = resolver.add_builtin_types(types);
        let rank = match rank_types(&types) {
            Some(rank) => rank,
            None => {
                return Err(TransError::BadType);
            },
        };
        let struct_types = handles_of(&types, Category::Struct);
        let union_types = handles_of(&types, Category::Union);
        let enum_types = handles_of(&types, Category::Enum);
        let bitmask_types = handles_of(&types, Category::Bitmask);
        let result_type = match find(&declared.names, "VkResult") {
            Some(k) => {
                proof {
                    lemma_find(d.names, "VkResult"@, 0);
                    assert(types.deep_view()[k as int] == resolved[k as int]);
                }
                Some(TypeHandle(k + 1))
            },
            None => {
                proof {
                    lemma_find(d.names, "VkResult"@, 0);
                    lemma_result_is_not_builtin();
                    assert forall|i: int| 0 <= i < types.deep_view().len() implies (
                    #[trigger] types.deep_view()[i]).head.standard_name != "VkResult"@ by {
                        if i < resolved.len() {
                            assert(types.deep_view()[i] == resolved[i]);
                        }
                    }
                }
                None
            },
        };
        let Lowered { enums, commands, warnings } = lowered;
        let Gathered { features, types: _, commands: _, patches: _ } = gathered;
        let vulkan = Vulkan {
            types: TypeTable {
                items: types,
                struct_types,
                union_types,
                enum_types,
                bitmask_types,
                result_type,
            },
            enums,
            commands,
            features,
            warnings,
        };
        proof {
            let v = vulkan.deep_view();
            let witness = Seq::new(rank@.len(), |i: int| rank@[i] as nat);
            assert(v.ranked(witness));
        }
        Ok(vulkan)
    }
}

} // verus!
