//! Structures and unions as source text.
//!
//! Each is a `#[repr(C)]` record with one public field per member, followed by its default:
//! for a structure every member, for a union its first.

use vstd::prelude::*;
use vstd::string::*;
use crate::emit::ident::ident;
use crate::emit::ident::spec_ident;
use crate::emit::types::spec_default;
use crate::emit::types::spec_gate_any;
use crate::emit::types::spec_type_text;
use crate::error::EmitError;
use crate::error::EmitErrorView;
use crate::repr::Member;
use crate::repr::MemberView;
use crate::repr::Type;
use crate::repr::TypeDetails;
use crate::repr::TypeDetailsView;
use crate::repr::TypeHandle;
use crate::repr::TypeView;
use crate::repr::Vulkan;
use crate::repr::VulkanView;

verus! {

/// The text after the declaration of one field. A member whose name makes no identifier, or
/// whose type cannot be named, is a bad member of its structure.
pub open spec fn spec_field(
    acc: Seq<char>,
    v: VulkanView,
    owner: TypeView,
    m: MemberView,
) -> Result<
    Seq<char>,
    EmitErrorView,
> {
    match (spec_ident(m.name), spec_type_text(v, m.decor_type)) {
        (Some(id), Some(ty)) => Ok(acc + "    pub "@ + id + ": "@ + ty + ",\n"@),
        _ => Err(EmitErrorView::BadStructMember(owner.head.standard_name, m.name)),
    }
}

/// The text after the declarations of the fields from `i` on.
pub open spec fn spec_fields(
    acc: Seq<char>,
    v: VulkanView,
    owner: TypeView,
    members: Seq<MemberView>,
    i: int,
) -> Result<Seq<char>, EmitErrorView>
    decreases members.len() - i,
{
    if i < 0 || i >= members.len() {
        Ok(acc)
    } else {
        match spec_field(acc, v, owner, members[i]) {
            Ok(acc) => spec_fields(acc, v, owner, members, i + 1),
            Err(e) => Err(e),
        }
    }
}

/// The text after the default value of one field.
pub open spec fn spec_field_default(
    acc: Seq<char>,
    v: VulkanView,
    owner: TypeView,
    m: MemberView,
) -> Result<Seq<char>, EmitErrorView> {
    match (spec_ident(m.name), spec_default(v, m.decor_type, owner.head.output_name)) {
        (Some(id), Some(d)) => Ok(acc + "            "@ + id + ": "@ + d + ",\n"@),
        _ => Err(EmitErrorView::BadStructMember(owner.head.standard_name, m.name)),
    }
}

/// The text after the default values of the fields from `i` up to `end`.
pub open spec fn spec_field_defaults(
    acc: Seq<char>,
    v: VulkanView,
    owner: TypeView,
    members: Seq<MemberView>,
    i: int,
    end: int,
) -> Result<Seq<char>, EmitErrorView>
    decreases end - i,
{
    if i < 0 || i >= end || end > members.len() {
        Ok(acc)
    } else {
        match spec_field_default(acc, v, owner, members[i]) {
            Ok(acc) => spec_field_defaults(acc, v, owner, members, i + 1, end),
            Err(e) => Err(e),
        }
    }
}

/// The members of a structure or union; none for any other type.
pub open spec fn spec_members_of(body: TypeDetailsView) -> Option<Seq<MemberView>> {
    match body {
        TypeDetailsView::Struct(d) => Some(d.members),
        TypeDetailsView::Union(d) => Some(d.members),
        _ => None,
    }
}

/// The keyword that declares a record.
pub open spec fn spec_keyword(body: TypeDetailsView) -> Seq<char> {
    if body is Union {
        "union"@
    } else {
        "struct"@
    }
}

/// How many members the default of a record sets: all of a structure, the first of a union.
pub open spec fn spec_defaulted(body: TypeDetailsView, members: Seq<MemberView>) -> int {
    if body is Union && members.len() > 1 {
        1
    } else {
        members.len() as int
    }
}

/// The declaration of a record without its gate: `#[repr(C)]`, the record and its fields.
pub open spec fn spec_declaration(
    acc: Seq<char>,
    v: VulkanView,
    t: TypeView,
    name: Seq<char>,
    members: Seq<MemberView>,
) -> Result<Seq<char>, EmitErrorView> {
    match spec_fields(
        acc + "#[repr(C)]\npub "@ + spec_keyword(t.body) + " "@ + name + " {\n"@,
        v,
        t,
        members,
        0,
    ) {
        Ok(acc) => Ok(acc + "}\n\n"@),
        Err(e) => Err(e),
    }
}

/// The default implementation of a record without its gate.
pub open spec fn spec_default_impl(
    acc: Seq<char>,
    v: VulkanView,
    t: TypeView,
    name: Seq<char>,
    members: Seq<MemberView>,
) -> Result<Seq<char>, EmitErrorView> {
    match spec_field_defaults(
        acc + "impl Default for "@ + name + " {\n    fn default() -> Self {\n        Self {\n"@,
        v,
        t,
        members,
        0,
        spec_defaulted(t.body, members),
    ) {
        Ok(acc) => Ok(acc + "        }\n    }\n}\n\n"@),
        Err(e) => Err(e),
    }
}

/// The text after one record: its gate and declaration, then its gate and default. A type
/// that is no record adds nothing; a record whose name makes no identifier is an error.
pub open spec fn spec_record(acc: Seq<char>, v: VulkanView, t: TypeView) -> Result<
    Seq<char>,
    EmitErrorView,
> {
    match spec_members_of(t.body) {
        None => Ok(acc),
        Some(members) => match spec_ident(t.head.output_name) {
            None => Err(
                EmitErrorView::BadStructMember(t.head.standard_name, t.head.output_name),
            ),
            Some(name) => {
                let gate = spec_gate_any(v, t.head.feature, t.head.later_features, Seq::empty());
                match spec_declaration(acc + gate, v, t, name, members) {
                    Err(e) => Err(e),
                    Ok(acc) => spec_default_impl(acc + gate, v, t, name, members),
                }
            },
        },
    }
}

/// The text after the records of the handles from `i` on. A handle that is not live adds
/// nothing.
pub open spec fn spec_records(
    acc: Seq<char>,
    v: VulkanView,
    handles: Seq<TypeHandle>,
    i: int,
) -> Result<
    Seq<char>,
    EmitErrorView,
>
    decreases handles.len() - i,
{
    if i < 0 || i >= handles.len() {
        Ok(acc)
    } else if handles[i].live(v.types.items.len()) {
        match spec_record(acc, v, v.types.items[handles[i].0 - 1]) {
            Ok(acc) => spec_records(acc, v, handles, i + 1),
            Err(e) => Err(e),
        }
    } else {
        spec_records(acc, v, handles, i + 1)
    }
}

/// What every module of records begins with.
pub open spec fn spec_header() -> Seq<char> {
    "use super::*;\nuse core::ffi::*;\nuse core::ptr::*;\n\n"@
}

/// The module of the structures.
pub open spec fn spec_structs(v: VulkanView) -> Result<Seq<char>, EmitErrorView> {
    spec_records(spec_header(), v, v.types.struct_types, 0)
}

/// The module of the unions.
pub open spec fn spec_unions(v: VulkanView) -> Result<Seq<char>, EmitErrorView> {
    spec_records(spec_header(), v, v.types.union_types, 0)
}

impl Vulkan {
    /// Writes the declaration of one field.
    fn field(&self, out: &mut String, owner: &Type, m: &Member) -> (r: Result<(), EmitError>)
        ensures
            match spec_field(old(out)@, self.deep_view(), owner.deep_view(), m.deep_view()) {
                Ok(text) => r is Ok && final(out)@ == text,
                Err(e) => r is Err && r->Err_0.deep_view() == e,
            },
    {
        match (ident(m.name.as_str()), self.type_text(&m.decor_type)) {
            (Some(id), Some(ty)) => {
                out.append("    pub ");
                out.append(id.as_str());
                out.append(": ");
                out.append(ty.as_str());
                out.append(",\n");
                Ok(())
            },
            _ => Err(
                EmitError::BadStructMember(owner.head.standard_name.clone(), m.name.clone()),
            ),
        }
    }

    /// Writes the default value of one field.
    fn field_default(&self, out: &mut String, owner: &Type, m: &Member) -> (r: Result<
        (),
        EmitError,
    >)
        ensures
            match spec_field_default(
                old(out)@,
                self.deep_view(),
                owner.deep_view(),
                m.deep_view(),
            ) {
                Ok(text) => r is Ok && final(out)@ == text,
                Err(e) => r is Err && r->Err_0.deep_view() == e,
            },
    {
        match (
            ident(m.name.as_str()),
            self.default_text(&m.decor_type, owner.head.output_name.as_str()),
        ) {
            (Some(id), Some(d)) => {
                out.append("            ");
                out.append(id.as_str());
                out.append(": ");
                out.append(d.as_str());
                out.append(",\n");
                Ok(())
            },
            _ => Err(
                EmitError::BadStructMember(owner.head.standard_name.clone(), m.name.clone()),
            ),
        }
    }

    /// Writes one record.
    fn record(&self, out: &mut String, t: &Type) -> (r: Result<(), EmitError>)
        ensures
            match spec_record(old(out)@, self.deep_view(), t.deep_view()) {
                Ok(text) => r is Ok && final(out)@ == text,
                Err(e) => r is Err && r->Err_0.deep_view() == e,
            },
    {
        let (members, union) = match &t.body {
            TypeDetails::Struct(d) => (&d.members, false),
            TypeDetails::Union(d) => (&d.members, true),
            _ => {
                return Ok(());
            },
        };
        let name = match ident(t.head.output_name.as_str()) {
            Some(n) => n,
            None => {
                return Err(
                    EmitError::BadStructMember(
                        t.head.standard_name.clone(),
                        t.head.output_name.clone(),
                    ),
                );
            },
        };
        let gate = self.gate_any(t.head.feature, &t.head.later_features, "");
        proof {
            reveal_strlit("");
            assert(""@ =~= Seq::<char>::empty());
        }
        let ghost v = self.deep_view();
        let ghost tv = t.deep_view();
        let ghost views = members.deep_view();
        out.append(gate.as_str());
        let ghost start = out@;
        out.append("#[repr(C)]\npub ");
        out.append(if union {
            "union"
        } else {
            "struct"
        });
        out.append(" ");
        out.append(name.as_str());
        out.append(" {\n");
        let mut i: usize = 0;
        let ghost opened = out@;
        while i < members.len()
            invariant
                v == self.deep_view(),
                tv == t.deep_view(),
                views == members.deep_view(),
                spec_members_of(tv.body) == Some(views),
                spec_ident(tv.head.output_name) == Some(name@),
                start == old(out)@ + gate@,
                gate@ == spec_gate_any(v, tv.head.feature, tv.head.later_features, Seq::empty()),
                opened == start + "#[repr(C)]\npub "@ + spec_keyword(tv.body) + " "@ + name@
                    + " {\n"@,
                spec_fields(out@, v, tv, views, i as int) == spec_fields(opened, v, tv, views, 0),
            decreases members.len() - i,
        {
            self.field(out, t, &members[i])?;
            i += 1;
        }
        out.append("}\n\n");
        out.append(gate.as_str());
        out.append("impl Default for ");
        out.append(name.as_str());
        out.append(" {\n    fn default() -> Self {\n        Self {\n");
        let end: usize = if union && members.len() > 1 {
            1
        } else {
            members.len()
        };
        let mut i: usize = 0;
        let ghost opened_default = out@;
        while i < end
            invariant
                v == self.deep_view(),
                tv == t.deep_view(),
                views == members.deep_view(),
                end <= members.len(),
                spec_members_of(tv.body) == Some(views),
                spec_ident(tv.head.output_name) == Some(name@),
                spec_declaration(start, v, tv, name@, views) is Ok,
                opened_default == spec_declaration(start, v, tv, name@, views)->Ok_0 + gate@
                    + "impl Default for "@ + name@
                    + " {\n    fn default() -> Self {\n        Self {\n"@,
                start == old(out)@ + gate@,
                gate@ == spec_gate_any(v, tv.head.feature, tv.head.later_features, Seq::empty()),
                end == spec_defaulted(tv.body, views),
                spec_field_defaults(out@, v, tv, views, i as int, end as int)
                    == spec_field_defaults(opened_default, v, tv, views, 0, end as int),
            decreases end - i,
        {
            self.field_default(out, t, &members[i])?;
            i += 1;
        }
        out.append("        }\n    }\n}\n\n");
        Ok(())
    }

    /// Writes the records of a list of handles.
    fn records(&self, out: &mut String, handles: &Vec<TypeHandle>) -> (r: Result<(), EmitError>)
        ensures
            match spec_records(old(out)@, self.deep_view(), handles.deep_view(), 0) {
                Ok(text) => r is Ok && final(out)@ == text,
                Err(e) => r is Err && r->Err_0.deep_view() == e,
            },
    {
        let mut i: usize = 0;
        let ghost v = self.deep_view();
        let ghost views = handles.deep_view();
        while i < handles.len()
            invariant
                v == self.deep_view(),
                views == handles.deep_view(),
                spec_records(out@, v, views, i as int) == spec_records(old(out)@, v, views, 0),
            decreases handles.len() - i,
        {
            let h = handles[i];
            proof {
                assert(views[i as int] == h);
            }
            if 1 <= h.0 && h.0 <= self.types.items.len() {
                proof {
                    assert(v.types.items[h.0 - 1] == self.types.items@[h.0 - 1].deep_view());
                }
                self.record(out, &self.types.items[h.0 - 1])?;
            }
            i += 1;
        }
        Ok(())
    }

    /// Writes the module of the structures.
    pub fn structs_text(&self) -> (r: Result<String, EmitError>)
        ensures
            match spec_structs(self.deep_view()) {
                Ok(text) => r is Ok && r->Ok_0@ == text,
                Err(e) => r is Err && r->Err_0.deep_view() == e,
            },
    {
        let mut out = String::from_str("use super::*;\nuse core::ffi::*;\nuse core::ptr::*;\n\n");
        self.records(&mut out, &self.types.struct_types)?;
        Ok(out)
    }

    /// Writes the module of the unions.
    pub fn unions_text(&self) -> (r: Result<String, EmitError>)
        ensures
            match spec_unions(self.deep_view()) {
                Ok(text) => r is Ok && r->Ok_0@ == text,
                Err(e) => r is Err && r->Err_0.deep_view() == e,
            },
    {
        let mut out = String::from_str("use super::*;\nuse core::ffi::*;\nuse core::ptr::*;\n\n");
        self.records(&mut out, &self.types.union_types)?;
        Ok(out)
    }
}

} // verus!
