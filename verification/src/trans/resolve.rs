//! The second pass over the types: resolution.
//!
//! Every name that a draft holds is replaced by the handle of the type of that name. A name
//! of C or of a platform that the registry uses without declaring it gets a type of its own,
//! behind the declared ones.

use vstd::prelude::*;
use vstd::string::*;
use crate::error::TransError;
use crate::error::TransErrorView;
use crate::names::builtin;
use crate::names::spec_builtin;
use crate::repr::BaseTypeDetails;
use crate::repr::BaseTypeDetailsView;
use crate::repr::BitmaskDetails;
use crate::repr::BitmaskDetailsView;
use crate::repr::DecorType;
use crate::repr::DecorTypeView;
use crate::repr::DefineDetails;
use crate::repr::DefineDetailsView;
use crate::repr::EnumDetails;
use crate::repr::EnumDetailsView;
use crate::repr::FeatureHandle;
use crate::repr::FnPtrDetails;
use crate::repr::FnPtrDetailsView;
use crate::repr::HandleDetails;
use crate::repr::HandleDetailsView;
use crate::repr::ImportedDetails;
use crate::repr::ImportedDetailsView;
use crate::repr::IncludeDetails;
use crate::repr::IncludeDetailsView;
use crate::repr::Member;
use crate::repr::MemberView;
use crate::repr::StructDetails;
use crate::repr::StructDetailsView;
use crate::repr::Type;
use crate::repr::TypeCommon;
use crate::repr::TypeCommonView;
use crate::repr::TypeDetails;
use crate::repr::TypeDetailsView;
use crate::repr::TypeHandle;
use crate::repr::TypeView;
use crate::repr::UnionDetails;
use crate::repr::UnionDetailsView;
use crate::repr::features_live;
use crate::repr::handles_live;
use crate::repr::members_live;
use crate::repr::opt_live;
use crate::trans::decl::Decl;
use crate::trans::decl::DeclView;
use crate::trans::declare::Declared;
use crate::trans::declare::DeclaredView;
use crate::trans::declare::Draft;
use crate::trans::declare::DraftBody;
use crate::trans::declare::DraftBodyView;
use crate::trans::declare::DraftView;
use crate::trans::gather::Gathered;
use crate::trans::gather::GatheredView;
use crate::trans::lookup::MAX_ENTRIES;
use crate::trans::lookup::NameMap;
use crate::trans::lookup::NameMapView;
use crate::trans::lookup::find;
use crate::trans::lookup::lemma_find;
use crate::trans::lookup::spec_find;

verus! {

/// The name that a name stands for: that of the type it is an alias of, or itself.
pub open spec fn spec_target(aliases: NameMapView<Seq<char>>, name: Seq<char>) -> Seq<char> {
    match aliases.get(name) {
        Some(target) => target,
        None => name,
    }
}

/// The handle of the type of a name, and the built-in names in use after the search. A
/// declared type is found by its name or by an alias; a built-in name that is not declared
/// gets the handle behind the last one given out.
pub open spec fn spec_resolve(d: DeclaredView, extra: Seq<Seq<char>>, name: Seq<char>) -> Result<
    (TypeHandle, Seq<Seq<char>>),
    TransErrorView,
> {
    let target = spec_target(d.aliases, name);
    match spec_find(d.names, target, 0) {
        Some(k) => Ok((TypeHandle((k + 1) as usize), extra)),
        None => match spec_find(extra, target, 0) {
            Some(j) => Ok((TypeHandle((d.names.len() + j + 1) as usize), extra)),
            None => if spec_builtin(target) is None {
                Err(TransErrorView::TypeNotFound(name))
            } else if d.names.len() + extra.len() >= MAX_ENTRIES {
                Err(TransErrorView::BadType)
            } else {
                Ok((TypeHandle((d.names.len() + extra.len() + 1) as usize), extra.push(target)))
            },
        },
    }
}

/// The handle of the type of a name, if there is a name.
pub open spec fn spec_resolve_opt(
    d: DeclaredView,
    extra: Seq<Seq<char>>,
    name: Option<Seq<char>>,
) -> Result<(Option<TypeHandle>, Seq<Seq<char>>), TransErrorView> {
    match name {
        None => Ok((None, extra)),
        Some(name) => match spec_resolve(d, extra, name) {
            Ok((h, extra)) => Ok((Some(h), extra)),
            Err(e) => Err(e),
        },
    }
}

/// The member that a declaration is, with its type resolved.
pub open spec fn spec_member(d: DeclaredView, extra: Seq<Seq<char>>, decl: DeclView) -> Result<
    (MemberView, Seq<Seq<char>>),
    TransErrorView,
> {
    match spec_resolve(d, extra, decl.base) {
        Ok((handle, extra)) => Ok(
            (
                MemberView {
                    name: decl.name,
                    decor_type: DecorTypeView { handle, decors: decl.decors, array: decl.array },
                },
                extra,
            ),
        ),
        Err(e) => Err(e),
    }
}

/// The members that the declarations from `i` on are, after those resolved so far.
pub open spec fn spec_members(
    d: DeclaredView,
    extra: Seq<Seq<char>>,
    decls: Seq<DeclView>,
    i: int,
    acc: Seq<MemberView>,
) -> Result<(Seq<MemberView>, Seq<Seq<char>>), TransErrorView>
    decreases decls.len() - i,
{
    if i < 0 || i >= decls.len() {
        Ok((acc, extra))
    } else {
        match spec_member(d, extra, decls[i]) {
            Ok((m, extra)) => spec_members(d, extra, decls, i + 1, acc.push(m)),
            Err(e) => Err(e),
        }
    }
}

/// The handle of a structure that is extended. It must be that of a declared structure.
pub open spec fn spec_extended(d: DeclaredView, extra: Seq<Seq<char>>, name: Seq<char>) -> Result<
    (TypeHandle, Seq<Seq<char>>),
    TransErrorView,
> {
    match spec_resolve(d, extra, name) {
        Ok((h, extra)) => if 1 <= h.0 <= d.drafts.len() && d.drafts[h.0 - 1].body is Struct {
            Ok((h, extra))
        } else {
            Err(TransErrorView::BadType)
        },
        Err(e) => Err(e),
    }
}

/// The handles of the structures named from `i` on, after those resolved so far.
pub open spec fn spec_extends(
    d: DeclaredView,
    extra: Seq<Seq<char>>,
    names: Seq<Seq<char>>,
    i: int,
    acc: Seq<TypeHandle>,
) -> Result<(Seq<TypeHandle>, Seq<Seq<char>>), TransErrorView>
    decreases names.len() - i,
{
    if i < 0 || i >= names.len() {
        Ok((acc, extra))
    } else {
        match spec_extended(d, extra, names[i]) {
            Ok((h, extra)) => spec_extends(d, extra, names, i + 1, acc.push(h)),
            Err(e) => Err(e),
        }
    }
}

/// The body of a type, resolved.
pub open spec fn spec_body(d: DeclaredView, extra: Seq<Seq<char>>, body: DraftBodyView) -> Result<
    (TypeDetailsView, Seq<Seq<char>>),
    TransErrorView,
> {
    match body {
        DraftBodyView::Include => Ok((TypeDetailsView::Include(IncludeDetailsView {  }), extra)),
        DraftBodyView::Define => Ok((TypeDetailsView::Define(DefineDetailsView {  }), extra)),
        DraftBodyView::Base(t) => match spec_resolve_opt(d, extra, t) {
            Ok((target, extra)) => Ok(
                (TypeDetailsView::Base(BaseTypeDetailsView { target }), extra),
            ),
            Err(e) => Err(e),
        },
        DraftBodyView::Handle(p) => match spec_resolve_opt(d, extra, p) {
            Ok((parent, extra)) => Ok(
                (TypeDetailsView::Handle(HandleDetailsView { parent }), extra),
            ),
            Err(e) => Err(e),
        },
        DraftBodyView::Bitmask(holder, bits) => match spec_resolve(d, extra, holder) {
            Ok((output_type, extra)) => match spec_resolve_opt(d, extra, bits) {
                Ok((bit_values, extra)) => Ok(
                    (
                        TypeDetailsView::Bitmask(BitmaskDetailsView { output_type, bit_values }),
                        extra,
                    ),
                ),
                Err(e) => Err(e),
            },
            Err(e) => Err(e),
        },
        DraftBodyView::Enum => Ok((TypeDetailsView::Enum(EnumDetailsView {  }), extra)),
        DraftBodyView::FnPtr => Ok((TypeDetailsView::FnPtr(FnPtrDetailsView {  }), extra)),
        DraftBodyView::Struct(decls, names, returned_only) => match spec_members(
            d,
            extra,
            decls,
            0,
            Seq::empty(),
        ) {
            Ok((members, extra)) => match spec_extends(d, extra, names, 0, Seq::empty()) {
                Ok((extends, extra)) => Ok(
                    (
                        TypeDetailsView::Struct(
                            StructDetailsView { members, extends, returned_only },
                        ),
                        extra,
                    ),
                ),
                Err(e) => Err(e),
            },
            Err(e) => Err(e),
        },
        DraftBodyView::Union(decls) => match spec_members(d, extra, decls, 0, Seq::empty()) {
            Ok((members, extra)) => Ok(
                (TypeDetailsView::Union(UnionDetailsView { members }), extra),
            ),
            Err(e) => Err(e),
        },
        DraftBodyView::Imported => Ok((TypeDetailsView::Imported(ImportedDetailsView {  }), extra)),
    }
}

/// The names from `i` on that are aliases of `target`, after those found so far.
pub open spec fn spec_aliases_of(
    aliases: NameMapView<Seq<char>>,
    target: Seq<char>,
    i: int,
    acc: Seq<Seq<char>>,
) -> Seq<Seq<char>>
    decreases aliases.names.len() - i,
{
    if i < 0 || i >= aliases.names.len() || i >= aliases.values.len() {
        acc
    } else if aliases.values[i] == target {
        spec_aliases_of(aliases, target, i + 1, acc.push(aliases.names[i]))
    } else {
        spec_aliases_of(aliases, target, i + 1, acc)
    }
}

/// The features that introduce a name after the first, in their order.
pub open spec fn spec_later_features(map: NameMapView<FeatureHandle>, name: Seq<char>) -> Seq<
    FeatureHandle,
> {
    match map.get(name) {
        Some(first) => map.later(name, first, 0, Seq::empty()),
        None => Seq::empty(),
    }
}

/// The type that a draft comes to.
pub open spec fn spec_type(
    d: DeclaredView,
    g: GatheredView,
    extra: Seq<Seq<char>>,
    draft: DraftView,
) -> Result<(TypeView, Seq<Seq<char>>), TransErrorView> {
    match spec_resolve_opt(d, extra, draft.requires) {
        Err(e) => Err(e),
        Ok((required, extra)) => match spec_body(d, extra, draft.body) {
            Err(e) => Err(e),
            Ok((body, extra)) => Ok(
                (
                    TypeView {
                        head: TypeCommonView {
                            standard_name: draft.standard_name,
                            output_name: draft.output_name,
                            standard_aliases: spec_aliases_of(
                                d.aliases,
                                draft.standard_name,
                                0,
                                Seq::empty(),
                            ),
                            deprecated: draft.deprecated,
                            requires: required,
                            feature: g.types.get(draft.standard_name),
                            later_features: spec_later_features(g.types, draft.standard_name),
                        },
                        body,
                    },
                    extra,
                ),
            ),
        },
    }
}

/// The types that the drafts from `i` on come to, after those resolved so far.
pub open spec fn spec_types(
    d: DeclaredView,
    g: GatheredView,
    extra: Seq<Seq<char>>,
    i: int,
    acc: Seq<TypeView>,
) -> Result<(Seq<TypeView>, Seq<Seq<char>>), TransErrorView>
    decreases d.drafts.len() - i,
{
    if i < 0 || i >= d.drafts.len() {
        Ok((acc, extra))
    } else {
        match spec_type(d, g, extra, d.drafts[i]) {
            Ok((t, extra)) => spec_types(d, g, extra, i + 1, acc.push(t)),
            Err(e) => Err(e),
        }
    }
}

/// The type that stands for a built-in name.
pub open spec fn spec_builtin_type(name: Seq<char>) -> TypeView {
    TypeView {
        head: TypeCommonView {
            standard_name: name,
            output_name: match spec_builtin(name) {
                Some(out) => out,
                None => name,
            },
            standard_aliases: Seq::empty(),
            deprecated: None,
            requires: None,
            feature: None,
            later_features: Seq::empty(),
        },
        body: TypeDetailsView::Imported(ImportedDetailsView {  }),
    }
}

/// The types, with one more for each built-in name from `i` on.
pub open spec fn spec_builtin_types(types: Seq<TypeView>, extra: Seq<Seq<char>>, i: int) -> Seq<
    TypeView,
>
    decreases extra.len() - i,
{
    if i < 0 || i >= extra.len() {
        types
    } else {
        spec_builtin_types(types.push(spec_builtin_type(extra[i])), extra, i + 1)
    }
}

/// Whether a type has the output name of its draft, is declared outside the registry if
/// and only if its draft is, and is a structure if and only if its draft is.
pub open spec fn spec_same_name(t: TypeView, draft: DraftView) -> bool {
    t.head.output_name == draft.output_name && (t.body is Imported <==> draft.body is Imported)
        && (t.body is Struct <==> draft.body is Struct)
}

/// Whether every handle of a list is that of a declared structure.
pub open spec fn spec_structs(handles: Seq<TypeHandle>, d: DeclaredView) -> bool {
    forall|k: int|
        0 <= k < handles.len() ==> 1 <= (#[trigger] handles[k]).0 <= d.drafts.len()
            && d.drafts[handles[k].0 - 1].body is Struct
}

/// Whether a type, if it is a structure, extends declared structures only.
pub open spec fn spec_extends_structs(t: TypeView, d: DeclaredView) -> bool {
    t.body matches TypeDetailsView::Struct(s) ==> spec_structs(s.extends, d)
}

/// A type whose handles are live among some types is live among more.
pub proof fn lemma_live_grows(t: TypeView, n: nat, m: nat, f: nat)
    requires
        t.live(n, f),
        n <= m,
    ensures
        t.live(m, f),
{
    match t.body {
        TypeDetailsView::Struct(d) => {
            assert forall|i: int| 0 <= i < d.members.len() implies (
            #[trigger] d.members[i]).decor_type.handle.live(m) by {}
            assert forall|i: int| 0 <= i < d.extends.len() implies (#[trigger] d.extends[i]).live(
                m,
            ) by {}
        },
        TypeDetailsView::Union(d) => {
            assert forall|i: int| 0 <= i < d.members.len() implies (
            #[trigger] d.members[i]).decor_type.handle.live(m) by {}
        },
        _ => {},
    }
}

/// The tables that resolution reads, and the built-in names that it has put to use.
pub struct Resolver<'a> {
    pub declared: &'a Declared,
    pub gathered: &'a Gathered,
    /// The built-in names in use, in the order of their handles.
    pub extra: Vec<String>,
}

impl<'a> Resolver<'a> {
    /// Whether the tables are well formed, every handle fits, and every name in use is a
    /// built-in name.
    pub open spec fn wf(&self) -> bool {
        &&& self.declared.deep_view().wf()
        &&& self.gathered.deep_view().live()
        &&& self.declared.names.len() + self.extra.len() <= MAX_ENTRIES
        &&& forall|k: int|
            0 <= k < self.extra.deep_view().len() ==> spec_builtin(
                #[trigger] self.extra.deep_view()[k],
            ) is Some
    }

    /// The number of types that have a handle.
    pub open spec fn count(&self) -> nat {
        (self.declared.names.len() + self.extra.len()) as nat
    }

    /// A resolver over the tables of the first pass, with no built-in name in use.
    pub(crate) fn new(declared: &'a Declared, gathered: &'a Gathered) -> (r: Resolver<'a>)
        requires
            declared.deep_view().wf(),
            gathered.deep_view().live(),
        ensures
            r.wf(),
            r.declared == declared,
            r.gathered == gathered,
            r.extra.deep_view() == Seq::<Seq<char>>::empty(),
    {
        let r = Resolver { declared, gathered, extra: Vec::new() };
        proof {
            assert(r.extra.deep_view() =~= Seq::empty());
        }
        r
    }

    /// Finds the handle of the type of a name.
    pub(crate) fn resolve(&mut self, name: &str) -> (r: Result<TypeHandle, TransError>)
        requires
            old(self).wf(),
        ensures
            match spec_resolve(
                old(self).declared.deep_view(),
                old(self).extra.deep_view(),
                name@,
            ) {
                Ok((h, extra)) => r == Ok::<TypeHandle, TransError>(h)
                    && final(self).extra.deep_view() == extra
                    && h.live(final(self).count()),
                Err(e) => r is Err && r->Err_0.deep_view() == e,
            },
            final(self).wf(),
            final(self).declared == old(self).declared,
            final(self).gathered == old(self).gathered,
            old(self).count() <= final(self).count(),
    {
        let target: &str = match self.declared.aliases.index_of(name) {
            Some(k) => {
                if k < self.declared.aliases.values.len() {
                    proof {
                        assert(self.declared.aliases.deep_view().values[k as int]
                            == self.declared.aliases.values@[k as int]@);
                    }
                    self.declared.aliases.values[k].as_str()
                } else {
                    name
                }
            },
            None => name,
        };
        match find(&self.declared.names, target) {
            Some(k) => Ok(TypeHandle(k + 1)),
            None => match find(&self.extra, target) {
                Some(j) => Ok(TypeHandle(self.declared.names.len() + j + 1)),
                None => {
                    if builtin(target).is_none() {
                        Err(TransError::TypeNotFound(String::from_str(name)))
                    } else if self.declared.names.len() + self.extra.len() >= MAX_ENTRIES {
                        Err(TransError::BadType)
                    } else {
                        let ghost before = self.extra.deep_view();
                        self.extra.push(String::from_str(target));
                        proof {
                            assert(self.extra.deep_view() =~= before.push(target@));
                        }
                        Ok(TypeHandle(self.declared.names.len() + self.extra.len()))
                    }
                },
            },
        }
    }

    /// Finds the handle of the type of a name, if there is a name.
    pub(crate) fn resolve_opt(&mut self, name: &Option<String>) -> (r: Result<
        Option<TypeHandle>,
        TransError,
    >)
        requires
            old(self).wf(),
        ensures
            match spec_resolve_opt(
                old(self).declared.deep_view(),
                old(self).extra.deep_view(),
                name.deep_view(),
            ) {
                Ok((h, extra)) => r == Ok::<Option<TypeHandle>, TransError>(h)
                    && final(self).extra.deep_view() == extra
                    && opt_live(h, final(self).count()),
                Err(e) => r is Err && r->Err_0.deep_view() == e,
            },
            final(self).wf(),
            final(self).declared == old(self).declared,
            final(self).gathered == old(self).gathered,
            old(self).count() <= final(self).count(),
    {
        match name {
            None => Ok(None),
            Some(n) => {
                let h = self.resolve(n.as_str())?;
                Ok(Some(h))
            },
        }
    }

    /// Resolves the declarations of members or parameters.
    pub(crate) fn members(&mut self, decls: &Vec<Decl>) -> (r: Result<Vec<Member>, TransError>)
        requires
            old(self).wf(),
        ensures
            match spec_members(
                old(self).declared.deep_view(),
                old(self).extra.deep_view(),
                decls.deep_view(),
                0,
                Seq::empty(),
            ) {
                Ok((members, extra)) => r is Ok
                    && r->Ok_0.deep_view() == members
                    && final(self).extra.deep_view() == extra
                    && members_live(members, final(self).count()),
                Err(e) => r is Err && r->Err_0.deep_view() == e,
            },
            final(self).wf(),
            final(self).declared == old(self).declared,
            final(self).gathered == old(self).gathered,
            old(self).count() <= final(self).count(),
    {
        let mut acc: Vec<Member> = Vec::new();
        let mut i: usize = 0;
        let ghost views = decls.deep_view();
        let ghost d = self.declared.deep_view();
        proof {
            assert(acc.deep_view() =~= Seq::empty());
        }
        while i < decls.len()
            invariant
                views == decls.deep_view(),
                d == self.declared.deep_view(),
                self.wf(),
                self.declared == old(self).declared,
                self.gathered == old(self).gathered,
                old(self).count() <= self.count(),
                members_live(acc.deep_view(), self.count()),
                spec_members(d, self.extra.deep_view(), views, i as int, acc.deep_view())
                    == spec_members(d, old(self).extra.deep_view(), views, 0, Seq::empty()),
            decreases decls.len() - i,
        {
            let decl = &decls[i];
            let handle = self.resolve(decl.base.as_str())?;
            let member = Member {
                name: decl.name.clone(),
                decor_type: DecorType {
                    handle,
                    decors: decl.decors.clone(),
                    array: decl.array.clone(),
                },
            };
            let ghost before = acc.deep_view();
            proof {
                assert(member.decor_type.decors.deep_view() =~= decl.decors.deep_view());
            }
            acc.push(member);
            proof {
                assert(acc.deep_view() =~= before.push(member.deep_view()));
                assert forall|k: int| 0 <= k < acc.deep_view().len() implies (
                #[trigger] acc.deep_view()[k]).decor_type.handle.live(self.count()) by {
                    if k < before.len() {
                        assert(acc.deep_view()[k] == before[k]);
                    }
                }
            }
            i += 1;
        }
        Ok(acc)
    }

    /// Resolves the names of the structures that a structure extends.
    fn extends(&mut self, names: &Vec<String>) -> (r: Result<Vec<TypeHandle>, TransError>)
        requires
            old(self).wf(),
        ensures
            match spec_extends(
                old(self).declared.deep_view(),
                old(self).extra.deep_view(),
                names.deep_view(),
                0,
                Seq::empty(),
            ) {
                Ok((handles, extra)) => r is Ok
                    && r->Ok_0.deep_view() == handles
                    && final(self).extra.deep_view() == extra
                    && handles_live(handles, final(self).count())
                    && spec_structs(handles, final(self).declared.deep_view()),
                Err(e) => r is Err && r->Err_0.deep_view() == e,
            },
            final(self).wf(),
            final(self).declared == old(self).declared,
            final(self).gathered == old(self).gathered,
            old(self).count() <= final(self).count(),
    {
        let mut acc: Vec<TypeHandle> = Vec::new();
        let mut i: usize = 0;
        let ghost views = names.deep_view();
        let ghost d = self.declared.deep_view();
        proof {
            assert(acc.deep_view() =~= Seq::empty());
        }
        while i < names.len()
            invariant
                views == names.deep_view(),
                d == self.declared.deep_view(),
                self.wf(),
                self.declared == old(self).declared,
                self.gathered == old(self).gathered,
                old(self).count() <= self.count(),
                handles_live(acc.deep_view(), self.count()),
                spec_structs(acc.deep_view(), d),
                spec_extends(d, self.extra.deep_view(), views, i as int, acc.deep_view())
                    == spec_extends(d, old(self).extra.deep_view(), views, 0, Seq::empty()),
            decreases names.len() - i,
        {
            let h = self.resolve(names[i].as_str())?;
            let is_struct = 1 <= h.0 && h.0 <= self.declared.drafts.len() && match 
                &self.declared.drafts[h.0 - 1].body {
                DraftBody::Struct(_, _, _) => true,
                _ => false,
            };
            if !is_struct {
                return Err(TransError::BadType);
            }
            let ghost before = acc.deep_view();
            acc.push(h);
            proof {
                assert(acc.deep_view() =~= before.push(h));
                assert(d.drafts[h.0 - 1] == self.declared.drafts@[h.0 - 1].deep_view());
                assert forall|k: int| 0 <= k < acc.deep_view().len() implies (
                #[trigger] acc.deep_view()[k]).live(self.count()) by {
                    if k < before.len() {
                        assert(acc.deep_view()[k] == before[k]);
                    }
                }
                assert forall|k: int| 0 <= k < acc.deep_view().len() implies 1 <= (
                #[trigger] acc.deep_view()[k]).0 <= d.drafts.len() && d.drafts[acc.deep_view()[k].0
                    - 1].body is Struct by {
                    if k < before.len() {
                        assert(acc.deep_view()[k] == before[k]);
                    }
                }
            }
            i += 1;
        }
        Ok(acc)
    }

    /// Resolves the body of a draft.
    fn body(&mut self, body: &DraftBody) -> (r: Result<TypeDetails, TransError>)
        requires
            old(self).wf(),
        ensures
            match spec_body(
                old(self).declared.deep_view(),
                old(self).extra.deep_view(),
                body.deep_view(),
            ) {
                Ok((b, extra)) => r is Ok
                    && r->Ok_0.deep_view() == b
                    && final(self).extra.deep_view() == extra
                    && b.live(final(self).count())
                    && (b matches TypeDetailsView::Struct(s) ==> spec_structs(
                    s.extends,
                    final(self).declared.deep_view(),
                )),
                Err(e) => r is Err && r->Err_0.deep_view() == e,
            },
            final(self).wf(),
            final(self).declared == old(self).declared,
            final(self).gathered == old(self).gathered,
            old(self).count() <= final(self).count(),
    {
        match body {
            DraftBody::Include => Ok(TypeDetails::Include(IncludeDetails {  })),
            DraftBody::Define => Ok(TypeDetails::Define(DefineDetails {  })),
            DraftBody::Base(t) => {
                let target = self.resolve_opt(t)?;
                Ok(TypeDetails::Base(BaseTypeDetails { target }))
            },
            DraftBody::Handle(p) => {
                let parent = self.resolve_opt(p)?;
                Ok(TypeDetails::Handle(HandleDetails { parent }))
            },
            DraftBody::Bitmask(holder, bits) => {
                let output_type = self.resolve(holder.as_str())?;
                let bit_values = self.resolve_opt(bits)?;
                Ok(TypeDetails::Bitmask(BitmaskDetails { output_type, bit_values }))
            },
            DraftBody::Enum => Ok(TypeDetails::Enum(EnumDetails {  })),
            DraftBody::FnPtr => Ok(TypeDetails::FnPtr(FnPtrDetails {  })),
            DraftBody::Struct(decls, names, returned_only) => {
                let members = self.members(decls)?;
                let ghost mid = self.count();
                let extends = self.extends(names)?;
                proof {
                    assert forall|k: int| 0 <= k < members.deep_view().len() implies (
                    #[trigger] members.deep_view()[k]).decor_type.handle.live(self.count()) by {}
                }
                Ok(
                    TypeDetails::Struct(
                        StructDetails { members, extends, returned_only: *returned_only },
                    ),
                )
            },
            DraftBody::Union(decls) => {
                let members = self.members(decls)?;
                Ok(TypeDetails::Union(UnionDetails { members }))
            },
            DraftBody::Imported => Ok(TypeDetails::Imported(ImportedDetails {  })),
        }
    }

    /// The names that are aliases of a name.
    pub fn aliases_of(aliases: &NameMap<String>, target: &str) -> (r: Vec<String>)
        ensures
            r.deep_view() == spec_aliases_of(aliases.deep_view(), target@, 0, Seq::empty()),
    {
        let mut acc: Vec<String> = Vec::new();
        let mut i: usize = 0;
        let ghost a = aliases.deep_view();
        proof {
            assert(acc.deep_view() =~= Seq::empty());
        }
        while i < aliases.names.len() && i < aliases.values.len()
            invariant
                a == aliases.deep_view(),
                spec_aliases_of(a, target@, i as int, acc.deep_view()) == spec_aliases_of(
                    a,
                    target@,
                    0,
                    Seq::empty(),
                ),
            decreases aliases.names.len() - i,
        {
            proof {
                assert(a.values[i as int] == aliases.values@[i as int]@);
                assert(a.names[i as int] == aliases.names@[i as int]@);
            }
            if crate::text::str_eq(aliases.values[i].as_str(), target) {
                let ghost before = acc.deep_view();
                let name = aliases.names[i].clone();
                acc.push(name);
                proof {
                    assert(acc.deep_view() =~= before.push(name@));
                }
            }
            i += 1;
        }
        acc
    }

    /// The feature that introduces a name, by a map of introductions.
    pub fn feature_of(map: &NameMap<FeatureHandle>, name: &str) -> (r: Option<FeatureHandle>)
        ensures
            r == map.deep_view().get(name@),
    {
        match map.index_of(name) {
            Some(k) => if k < map.values.len() {
                proof {
                    assert(map.deep_view().values[k as int] == map.values@[k as int]);
                }
                Some(map.values[k])
            } else {
                None
            },
            None => None,
        }
    }

    /// The features that introduce a name after the first, by a map of introductions.
    pub(crate) fn later_features_of(
        map: &NameMap<FeatureHandle>,
        name: &str,
        Ghost(f): Ghost<nat>,
    ) -> (r: Vec<
        FeatureHandle,
    >)
        requires
            features_live(map.deep_view().values, f),
        ensures
            r.deep_view() == spec_later_features(map.deep_view(), name@),
            features_live(r.deep_view(), f),
    {
        let mut acc: Vec<FeatureHandle> = Vec::new();
        proof {
            assert(acc.deep_view() =~= Seq::<FeatureHandle>::empty());
        }
        let first = match Self::feature_of(map, name) {
            Some(h) => h,
            None => {
                return acc;
            },
        };
        let mut before = first;
        let mut i: usize = 0;
        let ghost m = map.deep_view();
        while i < map.names.len() && i < map.values.len()
            invariant
                m == map.deep_view(),
                features_live(m.values, f),
                features_live(acc.deep_view(), f),
                m.later(name@, before, i as int, acc.deep_view()) == m.later(
                    name@,
                    first,
                    0,
                    Seq::empty(),
                ),
            decreases map.names.len() - i,
        {
            proof {
                assert(m.values[i as int] == map.values@[i as int]);
                assert(m.names[i as int] == map.names@[i as int]@);
            }
            if crate::text::str_eq(map.names[i].as_str(), name) && map.values[i] != before {
                let ghost taken = acc.deep_view();
                before = map.values[i];
                acc.push(before);
                proof {
                    assert(acc.deep_view() =~= taken.push(before));
                    assert forall|k: int| 0 <= k < acc.deep_view().len() implies (
                    #[trigger] acc.deep_view()[k]).live(f) by {
                        if k < taken.len() {
                            assert(acc.deep_view()[k] == taken[k]);
                        }
                    }
                }
            }
            i += 1;
        }
        acc
    }

    /// Resolves one draft.
    fn resolve_type(&mut self, draft: &Draft) -> (r: Result<Type, TransError>)
        requires
            old(self).wf(),
        ensures
            match spec_type(
                old(self).declared.deep_view(),
                old(self).gathered.deep_view(),
                old(self).extra.deep_view(),
                draft.deep_view(),
            ) {
                Ok((t, extra)) => r is Ok
                    && r->Ok_0.deep_view() == t
                    && final(self).extra.deep_view() == extra
                    && t.live(
                    final(self).count(),
                    final(self).gathered.features.len() as nat,
                ) && spec_same_name(t, draft.deep_view()) && spec_extends_structs(
                    t,
                    final(self).declared.deep_view(),
                ),
                Err(e) => r is Err && r->Err_0.deep_view() == e,
            },
            final(self).wf(),
            final(self).declared == old(self).declared,
            final(self).gathered == old(self).gathered,
            old(self).count() <= final(self).count(),
    {
        let required = self.resolve_opt(&draft.requires)?;
        let body = self.body(&draft.body)?;
        let feature = Self::feature_of(&self.gathered.types, draft.standard_name.as_str());
        proof {
            let g = self.gathered.deep_view();
            if feature is Some {
                let k = spec_find(g.types.names, draft.standard_name@, 0)->0;
                lemma_find(g.types.names, draft.standard_name@, 0);
                assert(g.types.values[k].live(g.features.len()));
            }
        }
        let later_features = Self::later_features_of(
            &self.gathered.types,
            draft.standard_name.as_str(),
            Ghost(self.gathered.features.len() as nat),
        );
        Ok(
            Type {
                head: TypeCommon {
                    standard_name: draft.standard_name.clone(),
                    output_name: draft.output_name.clone(),
                    standard_aliases: Self::aliases_of(
                        &self.declared.aliases,
                        draft.standard_name.as_str(),
                    ),
                    deprecated: draft.deprecated,
                    requires: required,
                    feature,
                    later_features,
                },
                body,
            },
        )
    }

    /// Resolves every draft, in the order of the handles.
    pub(crate) fn resolve_types(&mut self) -> (r: Result<Vec<Type>, TransError>)
        requires
            old(self).wf(),
        ensures
            match spec_types(
                old(self).declared.deep_view(),
                old(self).gathered.deep_view(),
                old(self).extra.deep_view(),
                0,
                Seq::empty(),
            ) {
                Ok((types, extra)) => r is Ok
                    && r->Ok_0.deep_view() == types
                    && final(self).extra.deep_view() == extra
                    && types.len() == final(self).declared.names.len()
                    && forall|k: int|
                    0 <= k < types.len() ==> (#[trigger] types[k]).live(
                        final(self).count(),
                        final(self).gathered.features.len() as nat,
                    ) && types[k].head.standard_name == final(self).declared.deep_view().names[k]
                        && spec_same_name(types[k], final(self).declared.deep_view().drafts[k])
                        && spec_extends_structs(types[k], final(self).declared.deep_view()),
                Err(e) => r is Err && r->Err_0.deep_view() == e,
            },
            final(self).wf(),
            final(self).declared == old(self).declared,
            final(self).gathered == old(self).gathered,
            old(self).count() <= final(self).count(),
    {
        let mut acc: Vec<Type> = Vec::new();
        let mut i: usize = 0;
        let ghost d = self.declared.deep_view();
        let ghost g = self.gathered.deep_view();
        proof {
            assert(acc.deep_view() =~= Seq::empty());
        }
        while i < self.declared.drafts.len()
            invariant
                d == self.declared.deep_view(),
                g == self.gathered.deep_view(),
                self.wf(),
                self.declared == old(self).declared,
                self.gathered == old(self).gathered,
                old(self).count() <= self.count(),
                acc.len() == i,
                i <= self.declared.drafts.len(),
                forall|k: int|
                    0 <= k < acc.deep_view().len() ==> (#[trigger] acc.deep_view()[k]).live(
                        self.count(),
                        g.features.len(),
                    ) && acc.deep_view()[k].head.standard_name == d.names[k] && spec_same_name(
                        acc.deep_view()[k],
                        d.drafts[k],
                    ) && spec_extends_structs(acc.deep_view()[k], d),
                spec_types(d, g, self.extra.deep_view(), i as int, acc.deep_view()) == spec_types(
                    d,
                    g,
                    old(self).extra.deep_view(),
                    0,
                    Seq::empty(),
                ),
            decreases self.declared.drafts.len() - i,
        {
            let ghost before = acc.deep_view();
            let ghost count = self.count();
            let t = self.resolve_type(&self.declared.drafts[i])?;
            acc.push(t);
            proof {
                assert(acc.deep_view() =~= before.push(t.deep_view()));
                assert(d.drafts[i as int] == self.declared.drafts@[i as int].deep_view());
                assert forall|k: int| 0 <= k < acc.deep_view().len() implies (
                #[trigger] acc.deep_view()[k]).live(self.count(), g.features.len())
                    && acc.deep_view()[k].head.standard_name == d.names[k] && spec_same_name(
                    acc.deep_view()[k],
                    d.drafts[k],
                ) && spec_extends_structs(acc.deep_view()[k], d) by {
                    if k < before.len() {
                        assert(acc.deep_view()[k] == before[k]);
                        lemma_live_grows(before[k], count, self.count(), g.features.len());
                    }
                }
            }
            i += 1;
        }
        Ok(acc)
    }

    /// Adds a type for every built-in name in use.
    pub(crate) fn add_builtin_types(&self, types: Vec<Type>) -> (r: Vec<Type>)
        requires
            self.wf(),
            types.len() == self.declared.names.len(),
            forall|k: int|
                0 <= k < types.deep_view().len() ==> (#[trigger] types.deep_view()[k]).live(
                    self.count(),
                    self.gathered.features.len() as nat,
                ),
        ensures
            r.deep_view() == spec_builtin_types(types.deep_view(), self.extra.deep_view(), 0),
            r.len() == self.count(),
            forall|k: int|
                0 <= k < r.deep_view().len() ==> (#[trigger] r.deep_view()[k]).live(
                    self.count(),
                    self.gathered.features.len() as nat,
                ),
            forall|k: int|
                0 <= k < types.deep_view().len() ==> r.deep_view()[k] == types.deep_view()[k],
            forall|k: int|
                types.deep_view().len() <= k < r.deep_view().len() ==> (
                #[trigger] r.deep_view()[k]).body is Imported && spec_builtin(
                    r.deep_view()[k].head.standard_name,
                ) is Some,
    {
        let mut acc = types;
        let mut i: usize = 0;
        let ghost extra = self.extra.deep_view();
        let ghost f = self.gathered.features.len() as nat;
        while i < self.extra.len()
            invariant
                extra == self.extra.deep_view(),
                f == self.gathered.features.len() as nat,
                self.wf(),
                i <= self.extra.len(),
                acc.len() == self.declared.names.len() + i,
                types.len() == self.declared.names.len(),
                forall|k: int|
                    0 <= k < acc.deep_view().len() ==> (#[trigger] acc.deep_view()[k]).live(
                        self.count(),
                        f,
                    ),
                forall|k: int|
                    0 <= k < types.deep_view().len() ==> acc.deep_view()[k]
                        == types.deep_view()[k],
                forall|k: int|
                    types.deep_view().len() <= k < acc.deep_view().len() ==> (
                    #[trigger] acc.deep_view()[k]).body is Imported && spec_builtin(
                        acc.deep_view()[k].head.standard_name,
                    ) is Some,
                spec_builtin_types(acc.deep_view(), extra, i as int) == spec_builtin_types(
                    types.deep_view(),
                    extra,
                    0,
                ),
            decreases self.extra.len() - i,
        {
            let name = &self.extra[i];
            let output = match builtin(name.as_str()) {
                Some(out) => String::from_str(out),
                None => name.clone(),
            };
            let aliases: Vec<String> = Vec::new();
            let later_features: Vec<FeatureHandle> = Vec::new();
            proof {
                assert(aliases.deep_view() =~= Seq::<Seq<char>>::empty());
                assert(later_features.deep_view() =~= Seq::<FeatureHandle>::empty());
                assert(extra[i as int] == name@);
            }
            let t = Type {
                head: TypeCommon {
                    standard_name: name.clone(),
                    output_name: output,
                    standard_aliases: aliases,
                    deprecated: None,
                    requires: None,
                    feature: None,
                    later_features,
                },
                body: TypeDetails::Imported(ImportedDetails {  }),
            };
            let ghost before = acc.deep_view();
            acc.push(t);
            proof {
                assert(acc.deep_view() =~= before.push(t.deep_view()));
                assert forall|k: int| 0 <= k < acc.deep_view().len() implies (
                #[trigger] acc.deep_view()[k]).live(self.count(), f) by {
                    if k < before.len() {
                        assert(acc.deep_view()[k] == before[k]);
                    }
                }
            }
            i += 1;
        }
        acc
    }
}

} // verus!
