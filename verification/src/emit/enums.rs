//! Enumerations, sets of flags and constants as source text.
//!
//! An enumeration or a set of flags is a transparent wrapper around its integer, with one
//! associated constant per enumerant and, where an enumerant is zero, a default. A block of
//! constants is a list of constants.

use vstd::prelude::*;
use vstd::string::*;
use crate::emit::ident::ident;
use crate::emit::ident::spec_ident;
use crate::emit::types::spec_gate;
use crate::emit::types::spec_gate_any;
use crate::error::EmitError;
use crate::error::EmitErrorView;
use crate::names::c_type;
use crate::names::constant_output_name;
use crate::names::spec_c_type;
use crate::names::spec_constant_name;
use crate::parse::values::EnumsType;
use crate::repr::EnumNumber;
use crate::repr::EnumNumberView;
use crate::repr::EnumValue;
use crate::repr::EnumValueView;
use crate::repr::Enums;
use crate::repr::EnumsView;
use crate::repr::FeatureHandle;
use crate::repr::Vulkan;
use crate::repr::VulkanView;
use crate::text::decimal;
use crate::text::spec_decimal;
use crate::trans::numbers::parse_i64;
use crate::trans::numbers::spec_parse_i64;

verus! {

/// A signed number in decimal.
pub open spec fn spec_signed(v: i64) -> Seq<char> {
    if v < 0 {
        "-"@ + spec_decimal((-v) as nat)
    } else {
        spec_decimal(v as nat)
    }
}

/// The integer type that holds the values of a block.
pub open spec fn spec_width(e: EnumsView) -> Seq<char> {
    if e.kind == EnumsType::Bitmask {
        if e.bit_width == 64 {
            "u64"@
        } else {
            "u32"@
        }
    } else {
        if e.bit_width == 64 {
            "i64"@
        } else {
            "i32"@
        }
    }
}

/// The value of an associated constant. A constant of C has none; an alias of a name that
/// makes no identifier has none.
pub open spec fn spec_number_text(n: EnumNumberView) -> Option<Seq<char>> {
    match n {
        EnumNumberView::Value(v) => Some("Self("@ + spec_signed(v) + ")"@),
        EnumNumberView::Bit(b) => Some("Self(1 << "@ + spec_decimal(b as nat) + ")"@),
        EnumNumberView::Alias(a) => match spec_ident(spec_constant_name(a)) {
            Some(id) => Some("Self::"@ + id),
            None => None,
        },
        EnumNumberView::Constant(_, _) => None,
    }
}

/// The text after the associated constant of one enumerant, gated by the feature that adds
/// it. An enumerant without a value adds nothing; one whose name makes no identifier is an
/// error.
pub open spec fn spec_variant(
    acc: Seq<char>,
    v: VulkanView,
    e: EnumsView,
    value: EnumValueView,
) -> Result<
    Seq<char>,
    EmitErrorView,
> {
    match spec_ident(value.output_name) {
        None => Err(EmitErrorView::BadStructMember(e.standard_name, value.standard_name)),
        Some(id) => match spec_number_text(value.number) {
            None => Ok(acc),
            Some(number) => Ok(
                acc + spec_gate(v, value.feature, "    "@) + "    pub const "@ + id
                    + ": Self = "@ + number + ";\n"@,
            ),
        },
    }
}

/// The text after the associated constants of the enumerants from `i` on.
pub open spec fn spec_variants(acc: Seq<char>, v: VulkanView, e: EnumsView, i: int) -> Result<
    Seq<char>,
    EmitErrorView,
>
    decreases e.values.len() - i,
{
    if i < 0 || i >= e.values.len() {
        Ok(acc)
    } else {
        match spec_variant(acc, v, e, e.values[i]) {
            Ok(acc) => spec_variants(acc, v, e, i + 1),
            Err(err) => Err(err),
        }
    }
}

/// The output name of the first enumerant from `i` on whose value is zero.
pub open spec fn spec_zero(values: Seq<EnumValueView>, i: int) -> Option<Seq<char>>
    decreases values.len() - i,
{
    if i < 0 || i >= values.len() {
        None
    } else if values[i].number == EnumNumberView::Value(0) {
        Some(values[i].output_name)
    } else {
        spec_zero(values, i + 1)
    }
}

/// The feature that introduces the type of a block.
pub open spec fn spec_block_feature(v: VulkanView, e: EnumsView) -> Option<FeatureHandle> {
    match e.handle {
        Some(h) => if h.live(v.types.items.len()) {
            v.types.items[h.0 - 1].head.feature
        } else {
            None
        },
        None => None,
    }
}

/// The features that introduce the type of a block after the first.
pub open spec fn spec_block_later(v: VulkanView, e: EnumsView) -> Seq<FeatureHandle> {
    match e.handle {
        Some(h) => if h.live(v.types.items.len()) {
            v.types.items[h.0 - 1].head.later_features
        } else {
            Seq::empty()
        },
        None => Seq::empty(),
    }
}

/// The text after the default of a wrapper: the zero enumerant, if there is one.
pub open spec fn spec_zero_default(
    acc: Seq<char>,
    gate: Seq<char>,
    name: Seq<char>,
    e: EnumsView,
) -> Seq<
    char,
> {
    match spec_zero(e.values, 0) {
        Some(zero) => match spec_ident(zero) {
            Some(id) => acc + gate + "impl Default for "@ + name
                + " {\n    fn default() -> Self {\n        Self::"@ + id + "\n    }\n}\n\n"@,
            None => acc,
        },
        None => acc,
    }
}

/// The text after the wrapper of an enumeration or a set of flags.
pub open spec fn spec_wrapper(acc: Seq<char>, v: VulkanView, e: EnumsView) -> Result<
    Seq<char>,
    EmitErrorView,
> {
    match spec_ident(e.output_name) {
        None => Err(EmitErrorView::BadStructMember(e.standard_name, e.output_name)),
        Some(name) => {
            let gate = spec_gate_any(
                v,
                spec_block_feature(v, e),
                spec_block_later(v, e),
                Seq::empty(),
            );
            match spec_variants(
                acc + gate
                    + "#[repr(transparent)]\n#[derive(Clone, Copy, PartialEq, Eq)]\npub struct "@
                    + name + "(pub "@ + spec_width(e) + ");\n\n"@ + gate + "impl "@ + name
                    + " {\n"@,
                v,
                e,
                0,
            ) {
                Ok(acc) => Ok(spec_zero_default(acc + "}\n\n"@, gate, name, e)),
                Err(err) => Err(err),
            }
        },
    }
}

/// The type and the value of a constant, where both can be written: an integer constant of
/// a C type that the target language has a name for, or an integer without a type.
pub open spec fn spec_constant_value(n: EnumNumberView) -> Option<(Seq<char>, Seq<char>)> {
    match n {
        EnumNumberView::Constant(value, ty) => match (spec_c_type(ty), spec_parse_i64(value)) {
            (Some(t), Some(number)) => Some((t, spec_signed(number))),
            _ => None,
        },
        EnumNumberView::Value(number) => Some(
            (
                if number < 0 {
                    "i32"@
                } else {
                    "u32"@
                },
                spec_signed(number),
            ),
        ),
        _ => None,
    }
}

/// The text after one constant. A constant that cannot be written adds nothing.
pub open spec fn spec_constant(acc: Seq<char>, e: EnumsView, value: EnumValueView) -> Result<
    Seq<char>,
    EmitErrorView,
> {
    match spec_ident(value.output_name) {
        None => Err(EmitErrorView::BadStructMember(e.standard_name, value.standard_name)),
        Some(id) => match spec_constant_value(value.number) {
            None => Ok(acc),
            Some((ty, number)) => Ok(
                acc + "pub const "@ + id + ": "@ + ty + " = "@ + number + ";\n"@,
            ),
        },
    }
}

/// The text after the constants from `i` on.
pub open spec fn spec_constants(acc: Seq<char>, e: EnumsView, i: int) -> Result<
    Seq<char>,
    EmitErrorView,
>
    decreases e.values.len() - i,
{
    if i < 0 || i >= e.values.len() {
        Ok(acc)
    } else {
        match spec_constant(acc, e, e.values[i]) {
            Ok(acc) => spec_constants(acc, e, i + 1),
            Err(err) => Err(err),
        }
    }
}

/// The text after one block of enumerants.
pub open spec fn spec_block(acc: Seq<char>, v: VulkanView, e: EnumsView) -> Result<
    Seq<char>,
    EmitErrorView,
> {
    if e.kind == EnumsType::Constants {
        match spec_constants(acc, e, 0) {
            Ok(acc) => Ok(acc + "\n"@),
            Err(err) => Err(err),
        }
    } else {
        spec_wrapper(acc, v, e)
    }
}

/// The text after the blocks from `i` on.
pub open spec fn spec_blocks(acc: Seq<char>, v: VulkanView, i: int) -> Result<
    Seq<char>,
    EmitErrorView,
>
    decreases v.enums.len() - i,
{
    if i < 0 || i >= v.enums.len() {
        Ok(acc)
    } else {
        match spec_block(acc, v, v.enums[i]) {
            Ok(acc) => spec_blocks(acc, v, i + 1),
            Err(err) => Err(err),
        }
    }
}

/// The module of the enumerations, sets of flags and constants.
pub open spec fn spec_enums(v: VulkanView) -> Result<Seq<char>, EmitErrorView> {
    spec_blocks("use super::*;\n\n"@, v, 0)
}

/// Writes a signed number in decimal.
pub fn signed(v: i64) -> (r: String)
    ensures
        r@ == spec_signed(v),
{
    if v < 0 {
        let magnitude = decimal((-(v as i128)) as u128);
        let mut r = String::from_str("-");
        r.append(magnitude.as_str());
        r
    } else {
        decimal(v as u128)
    }
}

/// The integer type that holds the values of a block.
fn width(e: &Enums) -> (r: &'static str)
    ensures
        r@ == spec_width(e.deep_view()),
{
    if e.kind == EnumsType::Bitmask {
        if e.bit_width == 64 {
            "u64"
        } else {
            "u32"
        }
    } else {
        if e.bit_width == 64 {
            "i64"
        } else {
            "i32"
        }
    }
}

/// Writes the value of an associated constant.
fn number_text(n: &EnumNumber) -> (r: Option<String>)
    ensures
        r.deep_view() == spec_number_text(n.deep_view()),
{
    match n {
        EnumNumber::Value(v) => {
            let mut r = String::from_str("Self(");
            let number = signed(*v);
            r.append(number.as_str());
            r.append(")");
            Some(r)
        },
        EnumNumber::Bit(b) => {
            let mut r = String::from_str("Self(1 << ");
            let bit = decimal(*b as u128);
            r.append(bit.as_str());
            r.append(")");
            Some(r)
        },
        EnumNumber::Alias(a) => {
            let name = constant_output_name(a.as_str());
            match ident(name.as_str()) {
                Some(id) => {
                    let mut r = String::from_str("Self::");
                    r.append(id.as_str());
                    Some(r)
                },
                None => None,
            }
        },
        EnumNumber::Constant(_, _) => None,
    }
}

/// The type and the value of a constant, where both can be written.
fn constant_value(n: &EnumNumber) -> (r: Option<(&'static str, String)>)
    ensures
        r.deep_view() == spec_constant_value(n.deep_view()),
{
    match n {
        EnumNumber::Constant(value, ty) => match (c_type(ty.as_str()), parse_i64(value.as_str())) {
            (Some(t), Some(number)) => Some((t, signed(number))),
            _ => None,
        },
        EnumNumber::Value(number) => Some(
            (
                if *number < 0 {
                    "i32"
                } else {
                    "u32"
                },
                signed(*number),
            ),
        ),
        _ => None,
    }
}

/// Finds the first enumerant whose value is zero.
fn zero_of(values: &Vec<EnumValue>) -> (r: Option<&String>)
    ensures
        r.deep_view() == spec_zero(values.deep_view(), 0),
{
    let mut i: usize = 0;
    while i < values.len()
        invariant
            spec_zero(values.deep_view(), i as int) == spec_zero(values.deep_view(), 0),
        decreases values.len() - i,
    {
        proof {
            assert(values.deep_view()[i as int] == values@[i as int].deep_view());
        }
        match &values[i].number {
            EnumNumber::Value(v) => {
                if *v == 0 {
                    return Some(&values[i].output_name);
                }
            },
            _ => {},
        }
        i += 1;
    }
    None
}

impl Vulkan {
    /// The feature that introduces the type of a block.
    fn block_feature(&self, e: &Enums) -> (r: Option<FeatureHandle>)
        ensures
            r == spec_block_feature(self.deep_view(), e.deep_view()),
    {
        match e.handle {
            Some(h) => {
                if 1 <= h.0 && h.0 <= self.types.items.len() {
                    proof {
                        assert(self.deep_view().types.items[h.0 - 1] == self.types.items@[h.0
                            - 1].deep_view());
                    }
                    self.types.items[h.0 - 1].head.feature
                } else {
                    None
                }
            },
            None => None,
        }
    }

    /// Writes the associated constant of one enumerant.
    fn variant(&self, out: &mut String, e: &Enums, value: &EnumValue) -> (r: Result<
        (),
        EmitError,
    >)
        ensures
            match spec_variant(old(out)@, self.deep_view(), e.deep_view(), value.deep_view()) {
                Ok(text) => r is Ok && final(out)@ == text,
                Err(err) => r is Err && r->Err_0.deep_view() == err,
            },
    {
        let id = match ident(value.output_name.as_str()) {
            Some(id) => id,
            None => {
                return Err(
                    EmitError::BadStructMember(
                        e.standard_name.clone(),
                        value.standard_name.clone(),
                    ),
                );
            },
        };
        match number_text(&value.number) {
            None => Ok(()),
            Some(number) => {
                let gate = self.gate(value.feature, "    ");
                out.append(gate.as_str());
                out.append("    pub const ");
                out.append(id.as_str());
                out.append(": Self = ");
                out.append(number.as_str());
                out.append(";\n");
                Ok(())
            },
        }
    }

    /// Writes the wrapper of an enumeration or a set of flags.
    fn wrapper(&self, out: &mut String, e: &Enums) -> (r: Result<(), EmitError>)
        ensures
            match spec_wrapper(old(out)@, self.deep_view(), e.deep_view()) {
                Ok(text) => r is Ok && final(out)@ == text,
                Err(err) => r is Err && r->Err_0.deep_view() == err,
            },
    {
        let name = match ident(e.output_name.as_str()) {
            Some(n) => n,
            None => {
                return Err(
                    EmitError::BadStructMember(e.standard_name.clone(), e.output_name.clone()),
                );
            },
        };
        proof {
            reveal_strlit("");
            assert(""@ =~= Seq::<char>::empty());
        }
        let none: Vec<FeatureHandle> = Vec::new();
        proof {
            assert(none.deep_view() =~= Seq::<FeatureHandle>::empty());
        }
        let later: &Vec<FeatureHandle> = match e.handle {
            Some(h) => {
                if 1 <= h.0 && h.0 <= self.types.items.len() {
                    proof {
                        assert(self.deep_view().types.items[h.0 - 1] == self.types.items@[h.0
                            - 1].deep_view());
                    }
                    &self.types.items[h.0 - 1].head.later_features
                } else {
                    &none
                }
            },
            None => &none,
        };
        let gate = self.gate_any(self.block_feature(e), later, "");
        let ghost v = self.deep_view();
        let ghost ev = e.deep_view();
        out.append(gate.as_str());
        out.append("#[repr(transparent)]\n#[derive(Clone, Copy, PartialEq, Eq)]\npub struct ");
        out.append(name.as_str());
        out.append("(pub ");
        out.append(width(e));
        out.append(");\n\n");
        out.append(gate.as_str());
        out.append("impl ");
        out.append(name.as_str());
        out.append(" {\n");
        let ghost opened = out@;
        let mut i: usize = 0;
        while i < e.values.len()
            invariant
                v == self.deep_view(),
                ev == e.deep_view(),
                spec_ident(ev.output_name) == Some(name@),
                gate@ == spec_gate_any(
                    v,
                    spec_block_feature(v, ev),
                    spec_block_later(v, ev),
                    Seq::empty(),
                ),
                opened == old(out)@ + gate@
                    + "#[repr(transparent)]\n#[derive(Clone, Copy, PartialEq, Eq)]\npub struct "@
                    + name@ + "(pub "@ + spec_width(ev) + ");\n\n"@ + gate@ + "impl "@ + name@
                    + " {\n"@,
                spec_variants(out@, v, ev, i as int) == spec_variants(opened, v, ev, 0),
            decreases e.values.len() - i,
        {
            proof {
                assert(ev.values[i as int] == e.values@[i as int].deep_view());
            }
            self.variant(out, e, &e.values[i])?;
            i += 1;
        }
        out.append("}\n\n");
        match zero_of(&e.values) {
            Some(zero) => match ident(zero.as_str()) {
                Some(id) => {
                    out.append(gate.as_str());
                    out.append("impl Default for ");
                    out.append(name.as_str());
                    out.append(" {\n    fn default() -> Self {\n        Self::");
                    out.append(id.as_str());
                    out.append("\n    }\n}\n\n");
                },
                None => {},
            },
            None => {},
        }
        Ok(())
    }

    /// Writes one constant.
    fn constant(out: &mut String, e: &Enums, value: &EnumValue) -> (r: Result<(), EmitError>)
        ensures
            match spec_constant(old(out)@, e.deep_view(), value.deep_view()) {
                Ok(text) => r is Ok && final(out)@ == text,
                Err(err) => r is Err && r->Err_0.deep_view() == err,
            },
    {
        let id = match ident(value.output_name.as_str()) {
            Some(id) => id,
            None => {
                return Err(
                    EmitError::BadStructMember(
                        e.standard_name.clone(),
                        value.standard_name.clone(),
                    ),
                );
            },
        };
        match constant_value(&value.number) {
            None => Ok(()),
            Some((ty, number)) => {
                out.append("pub const ");
                out.append(id.as_str());
                out.append(": ");
                out.append(ty);
                out.append(" = ");
                out.append(number.as_str());
                out.append(";\n");
                Ok(())
            },
        }
    }

    /// Writes one block of enumerants.
    fn block(&self, out: &mut String, e: &Enums) -> (r: Result<(), EmitError>)
        ensures
            match spec_block(old(out)@, self.deep_view(), e.deep_view()) {
                Ok(text) => r is Ok && final(out)@ == text,
                Err(err) => r is Err && r->Err_0.deep_view() == err,
            },
    {
        if e.kind == EnumsType::Constants {
            let ghost ev = e.deep_view();
            let mut i: usize = 0;
            while i < e.values.len()
                invariant
                    ev == e.deep_view(),
                    ev.kind == EnumsType::Constants,
                    spec_constants(out@, ev, i as int) == spec_constants(old(out)@, ev, 0),
                decreases e.values.len() - i,
            {
                proof {
                    assert(ev.values[i as int] == e.values@[i as int].deep_view());
                }
                Vulkan::constant(out, e, &e.values[i])?;
                i += 1;
            }
            out.append("\n");
            Ok(())
        } else {
            self.wrapper(out, e)
        }
    }

    /// Writes the module of the enumerations, sets of flags and constants.
    pub fn enums_text(&self) -> (r: Result<String, EmitError>)
        ensures
            match spec_enums(self.deep_view()) {
                Ok(text) => r is Ok && r->Ok_0@ == text,
                Err(e) => r is Err && r->Err_0.deep_view() == e,
            },
    {
        let mut out = String::from_str("use super::*;\n\n");
        let ghost v = self.deep_view();
        let mut i: usize = 0;
        while i < self.enums.len()
            invariant
                v == self.deep_view(),
                spec_blocks(out@, v, i as int) == spec_blocks("use super::*;\n\n"@, v, 0),
            decreases self.enums.len() - i,
        {
            proof {
                assert(v.enums[i as int] == self.enums@[i as int].deep_view());
            }
            self.block(&mut out, &self.enums[i])?;
            i += 1;
        }
        Ok(out)
    }
}

} // verus!
