//! Commands as source text: prototypes of external functions.

use vstd::prelude::*;
use vstd::string::*;
use crate::emit::ident::ident;
use crate::emit::ident::spec_ident;
use crate::emit::types::spec_gate_any;
use crate::emit::types::spec_type_text;
use crate::error::EmitError;
use crate::error::EmitErrorView;
use crate::repr::Command;
use crate::repr::CommandView;
use crate::repr::DecorType;
use crate::repr::DecorTypeView;
use crate::repr::Vulkan;
use crate::repr::VulkanView;
use crate::text::str_eq;

verus! {

/// Whether a declared type is plain `void`: a command that returns it returns nothing.
pub open spec fn spec_is_void(v: VulkanView, t: DecorTypeView) -> bool {
    t.handle.live(v.types.items.len()) && v.types.items[t.handle.0 - 1].head.standard_name
        == "void"@ && t.decors.len() == 0 && t.array is None
}

/// The text after one parameter; a comma goes before every parameter but the first.
pub open spec fn spec_param(acc: Seq<char>, v: VulkanView, c: CommandView, i: int) -> Result<
    Seq<char>,
    EmitErrorView,
> {
    let p = c.params[i];
    match (spec_ident(p.name), spec_type_text(v, p.decor_type)) {
        (Some(id), Some(ty)) => Ok(
            acc + (if i > 0 {
                ", "@
            } else {
                Seq::empty()
            }) + id + ": "@ + ty,
        ),
        _ => Err(EmitErrorView::BadStructMember(c.head.standard_name, p.name)),
    }
}

/// The text after the parameters from `i` on.
pub open spec fn spec_params(acc: Seq<char>, v: VulkanView, c: CommandView, i: int) -> Result<
    Seq<char>,
    EmitErrorView,
>
    decreases c.params.len() - i,
{
    if i < 0 || i >= c.params.len() {
        Ok(acc)
    } else {
        match spec_param(acc, v, c, i) {
            Ok(acc) => spec_params(acc, v, c, i + 1),
            Err(e) => Err(e),
        }
    }
}

/// The text after the return type of a command and the end of its prototype.
pub open spec fn spec_returns(acc: Seq<char>, v: VulkanView, c: CommandView) -> Result<
    Seq<char>,
    EmitErrorView,
> {
    if spec_is_void(v, c.returns) {
        Ok(acc + ");\n"@)
    } else {
        match spec_type_text(v, c.returns) {
            Some(ty) => Ok(acc + ") -> "@ + ty + ";\n"@),
            None => Err(
                EmitErrorView::BadStructMember(c.head.standard_name, c.head.standard_name),
            ),
        }
    }
}

/// The text after the prototype of one command: its gate, the name it links to, and the
/// function.
pub open spec fn spec_prototype(acc: Seq<char>, v: VulkanView, c: CommandView) -> Result<
    Seq<char>,
    EmitErrorView,
> {
    match spec_ident(c.head.output_name) {
        None => Err(EmitErrorView::BadStructMember(c.head.standard_name, c.head.output_name)),
        Some(name) => match spec_params(
            acc + spec_gate_any(v, c.head.feature, c.head.later_features, "    "@)
                + "    #[link_name = \""@
                + c.head.standard_name + "\"]\n    pub fn "@ + name + "("@,
            v,
            c,
            0,
        ) {
            Ok(acc) => spec_returns(acc, v, c),
            Err(e) => Err(e),
        },
    }
}

/// The text after the prototypes of the commands from `i` on.
pub open spec fn spec_prototypes(acc: Seq<char>, v: VulkanView, i: int) -> Result<
    Seq<char>,
    EmitErrorView,
>
    decreases v.commands.len() - i,
{
    if i < 0 || i >= v.commands.len() {
        Ok(acc)
    } else {
        match spec_prototype(acc, v, v.commands[i]) {
            Ok(acc) => spec_prototypes(acc, v, i + 1),
            Err(e) => Err(e),
        }
    }
}

/// The module of the commands.
pub open spec fn spec_commands(v: VulkanView) -> Result<Seq<char>, EmitErrorView> {
    match spec_prototypes("use super::*;\nuse core::ffi::*;\n\nextern \"system\" {\n"@, v, 0) {
        Ok(acc) => Ok(acc + "}\n"@),
        Err(e) => Err(e),
    }
}

impl Vulkan {
    /// Whether a declared type is plain `void`.
    fn is_void(&self, t: &DecorType) -> (r: bool)
        ensures
            r == spec_is_void(self.deep_view(), t.deep_view()),
    {
        if 1 <= t.handle.0 && t.handle.0 <= self.types.items.len() {
            proof {
                assert(self.deep_view().types.items[t.handle.0 - 1]
                    == self.types.items@[t.handle.0 - 1].deep_view());
                assert(t.deep_view().decors.len() == t.decors.len());
            }
            str_eq(self.types.items[t.handle.0 - 1].head.standard_name.as_str(), "void")
                && t.decors.len() == 0 && t.array.is_none()
        } else {
            false
        }
    }

    /// Writes the prototype of one command.
    fn prototype(&self, out: &mut String, c: &Command) -> (r: Result<(), EmitError>)
        ensures
            match spec_prototype(old(out)@, self.deep_view(), c.deep_view()) {
                Ok(text) => r is Ok && final(out)@ == text,
                Err(e) => r is Err && r->Err_0.deep_view() == e,
            },
    {
        let name = match ident(c.head.output_name.as_str()) {
            Some(n) => n,
            None => {
                return Err(
                    EmitError::BadStructMember(
                        c.head.standard_name.clone(),
                        c.head.output_name.clone(),
                    ),
                );
            },
        };
        let gate = self.gate_any(c.head.feature, &c.head.later_features, "    ");
        let ghost v = self.deep_view();
        let ghost cv = c.deep_view();
        out.append(gate.as_str());
        out.append("    #[link_name = \"");
        out.append(c.head.standard_name.as_str());
        out.append("\"]\n    pub fn ");
        out.append(name.as_str());
        out.append("(");
        let ghost opened = out@;
        let mut i: usize = 0;
        while i < c.params.len()
            invariant
                v == self.deep_view(),
                cv == c.deep_view(),
                spec_ident(cv.head.output_name) == Some(name@),
                opened == old(out)@ + spec_gate_any(
                    v,
                    cv.head.feature,
                    cv.head.later_features,
                    "    "@,
                )
                    + "    #[link_name = \""@ + cv.head.standard_name + "\"]\n    pub fn "@
                    + name@ + "("@,
                spec_params(out@, v, cv, i as int) == spec_params(opened, v, cv, 0),
            decreases c.params.len() - i,
        {
            let p = &c.params[i];
            proof {
                assert(cv.params[i as int] == p.deep_view());
            }
            match (ident(p.name.as_str()), self.type_text(&p.decor_type)) {
                (Some(id), Some(ty)) => {
                    if i > 0 {
                        out.append(", ");
                    } else {
                        proof {
                            assert(out@ + Seq::<char>::empty() =~= out@);
                        }
                    }
                    out.append(id.as_str());
                    out.append(": ");
                    out.append(ty.as_str());
                },
                _ => {
                    return Err(
                        EmitError::BadStructMember(c.head.standard_name.clone(), p.name.clone()),
                    );
                },
            }
            i += 1;
        }
        if self.is_void(&c.returns) {
            out.append(");\n");
            Ok(())
        } else {
            match self.type_text(&c.returns) {
                Some(ty) => {
                    out.append(") -> ");
                    out.append(ty.as_str());
                    out.append(";\n");
                    Ok(())
                },
                None => Err(
                    EmitError::BadStructMember(
                        c.head.standard_name.clone(),
                        c.head.standard_name.clone(),
                    ),
                ),
            }
        }
    }

    /// Writes the module of the commands.
    pub fn commands_text(&self) -> (r: Result<String, EmitError>)
        ensures
            match spec_commands(self.deep_view()) {
                Ok(text) => r is Ok && r->Ok_0@ == text,
                Err(e) => r is Err && r->Err_0.deep_view() == e,
            },
    {
        let mut out = String::from_str(
            "use super::*;\nuse core::ffi::*;\n\nextern \"system\" {\n",
        );
        let ghost v = self.deep_view();
        let mut i: usize = 0;
        while i < self.commands.len()
            invariant
                v == self.deep_view(),
                spec_prototypes(out@, v, i as int) == spec_prototypes(
                    "use super::*;\nuse core::ffi::*;\n\nextern \"system\" {\n"@,
                    v,
                    0,
                ),
            decreases self.commands.len() - i,
        {
            proof {
                assert(v.commands[i as int] == self.commands@[i as int].deep_view());
            }
            self.prototype(&mut out, &self.commands[i])?;
            i += 1;
        }
        out.append("}\n");
        Ok(out)
    }
}

} // verus!
