//! The result type: which of its values mean success and which mean failure.
//!
//! A value of the result type is a success code if it is zero or above, an error code if it
//! is below zero.

use vstd::prelude::*;
use vstd::string::*;
use crate::emit::ident::ident;
use crate::emit::ident::spec_ident;
use crate::emit::types::spec_base_name;
use crate::emit::types::spec_gate;
use crate::error::EmitError;
use crate::error::EmitErrorView;
use crate::repr::EnumNumber;
use crate::repr::EnumNumberView;
use crate::repr::EnumValue;
use crate::repr::EnumValueView;
use crate::repr::EnumsView;
use crate::repr::Vulkan;
use crate::repr::VulkanView;
use crate::text::str_eq;

verus! {

/// Whether an enumerant is on the given side: a success code is zero or above, an error code
/// below zero. An enumerant that is no number is on neither.
pub open spec fn spec_on_side(n: EnumNumberView, success: bool) -> bool {
    match n {
        EnumNumberView::Value(v) => (v >= 0) == success,
        _ => false,
    }
}

/// The text after the codes of one side from `i` on.
pub open spec fn spec_codes(
    acc: Seq<char>,
    v: VulkanView,
    name: Seq<char>,
    values: Seq<EnumValueView>,
    success: bool,
    i: int,
) -> Seq<char>
    decreases values.len() - i,
{
    if i < 0 || i >= values.len() {
        acc
    } else if spec_on_side(values[i].number, success) && spec_ident(values[i].output_name)
        is Some {
        spec_codes(
            acc + spec_gate(v, values[i].feature, "    "@) + "    "@ + name + "::"@ + spec_ident(
                values[i].output_name,
            )->0 + ",\n"@,
            v,
            name,
            values,
            success,
            i + 1,
        )
    } else {
        spec_codes(acc, v, name, values, success, i + 1)
    }
}

/// The index of the first block named `VkResult` from `i` on.
pub open spec fn spec_result_block(enums: Seq<EnumsView>, i: int) -> Option<int>
    decreases enums.len() - i,
{
    if i < 0 || i >= enums.len() {
        None
    } else if enums[i].standard_name == "VkResult"@ {
        Some(i)
    } else {
        spec_result_block(enums, i + 1)
    }
}

/// The values of the result type: those of the block named `VkResult`, if there is one.
pub open spec fn spec_result_values(v: VulkanView) -> Seq<EnumValueView> {
    match spec_result_block(v.enums, 0) {
        Some(k) => v.enums[k].values,
        None => Seq::empty(),
    }
}

/// The module of the result type. There is none without a result type; a result type whose
/// name makes no identifier is an error.
pub open spec fn spec_result(v: VulkanView) -> Result<Option<Seq<char>>, EmitErrorView> {
    match v.types.result_type {
        None => Ok(None),
        Some(h) => match spec_base_name(v, h) {
            None => Ok(None),
            Some(output) => match spec_ident(output) {
                None => Err(EmitErrorView::BadStructMember("VkResult"@, output)),
                Some(name) => {
                    let values = spec_result_values(v);
                    let head = "use super::*;\n\nimpl "@ + name + " {\n"@
                        + "    pub const fn is_success(self) -> bool {\n"@
                        + "        self.0 >= 0\n    }\n\n"@
                        + "    pub const fn is_error(self) -> bool {\n"@
                        + "        self.0 < 0\n    }\n}\n\n"@ + "pub const SUCCESS_CODES: &["@
                        + name + "] = &[\n"@;
                    let successes = spec_codes(head, v, name, values, true, 0);
                    let middle = successes + "];\n\npub const ERROR_CODES: &["@ + name
                        + "] = &[\n"@;
                    let errors = spec_codes(middle, v, name, values, false, 0);
                    Ok(Some(errors + "];\n"@))
                },
            },
        },
    }
}

/// Whether an enumerant is on the given side.
fn on_side(n: &EnumNumber, success: bool) -> (r: bool)
    ensures
        r == spec_on_side(n.deep_view(), success),
{
    match n {
        EnumNumber::Value(v) => (*v >= 0) == success,
        _ => false,
    }
}

impl Vulkan {
    /// Writes the codes of one side.
    fn codes(&self, out: &mut String, name: &str, values: &Vec<EnumValue>, success: bool)
        ensures
            final(out)@ == spec_codes(
                old(out)@,
                self.deep_view(),
                name@,
                values.deep_view(),
                success,
                0,
            ),
    {
        let ghost v = self.deep_view();
        let ghost views = values.deep_view();
        let mut i: usize = 0;
        while i < values.len()
            invariant
                v == self.deep_view(),
                views == values.deep_view(),
                spec_codes(out@, v, name@, views, success, i as int) == spec_codes(
                    old(out)@,
                    v,
                    name@,
                    views,
                    success,
                    0,
                ),
            decreases values.len() - i,
        {
            let value = &values[i];
            proof {
                assert(views[i as int] == value.deep_view());
            }
            if on_side(&value.number, success) {
                match ident(value.output_name.as_str()) {
                    Some(id) => {
                        let gate = self.gate(value.feature, "    ");
                        out.append(gate.as_str());
                        out.append("    ");
                        out.append(name);
                        out.append("::");
                        out.append(id.as_str());
                        out.append(",\n");
                    },
                    None => {},
                }
            }
            i += 1;
        }
    }

    /// Finds the block named `VkResult`.
    fn result_block(&self) -> (r: Option<usize>)
        ensures
            match r {
                Some(k) => spec_result_block(self.deep_view().enums, 0) == Some(k as int) && k
                    < self.enums.len(),
                None => spec_result_block(self.deep_view().enums, 0) is None,
            },
    {
        let mut i: usize = 0;
        while i < self.enums.len()
            invariant
                spec_result_block(self.deep_view().enums, i as int) == spec_result_block(
                    self.deep_view().enums,
                    0,
                ),
            decreases self.enums.len() - i,
        {
            proof {
                assert(self.deep_view().enums[i as int] == self.enums@[i as int].deep_view());
            }
            if str_eq(self.enums[i].standard_name.as_str(), "VkResult") {
                return Some(i);
            }
            i += 1;
        }
        None
    }

    /// Writes the module of the result type, if the registry has a result type.
    pub fn result_text(&self) -> (r: Result<Option<String>, EmitError>)
        ensures
            match spec_result(self.deep_view()) {
                Ok(text) => r is Ok && r->Ok_0.deep_view() == text,
                Err(e) => r is Err && r->Err_0.deep_view() == e,
            },
    {
        let h = match self.types.result_type {
            Some(h) => h,
            None => {
                return Ok(None);
            },
        };
        let output = match self.base_name(h) {
            Some(o) => o,
            None => {
                return Ok(None);
            },
        };
        let name = match ident(output) {
            Some(n) => n,
            None => {
                return Err(
                    EmitError::BadStructMember(
                        String::from_str("VkResult"),
                        String::from_str(output),
                    ),
                );
            },
        };
        let empty: Vec<EnumValue> = Vec::new();
        proof {
            assert(empty.deep_view() =~= Seq::<EnumValueView>::empty());
        }
        let values: &Vec<EnumValue> = match self.result_block() {
            Some(k) => {
                proof {
                    assert(self.deep_view().enums[k as int] == self.enums@[k as int].deep_view());
                }
                &self.enums[k].values
            },
            None => &empty,
        };
        let mut out = String::from_str("use super::*;\n\nimpl ");
        out.append(name.as_str());
        out.append(" {\n");
        out.append("    pub const fn is_success(self) -> bool {\n");
        out.append("        self.0 >= 0\n    }\n\n");
        out.append("    pub const fn is_error(self) -> bool {\n");
        out.append("        self.0 < 0\n    }\n}\n\n");
        out.append("pub const SUCCESS_CODES: &[");
        out.append(name.as_str());
        out.append("] = &[\n");
        self.codes(&mut out, name.as_str(), values, true);
        out.append("];\n\npub const ERROR_CODES: &[");
        out.append(name.as_str());
        out.append("] = &[\n");
        self.codes(&mut out, name.as_str(), values, false);
        out.append("];\n");
        Ok(Some(out))
    }
}

} // verus!
