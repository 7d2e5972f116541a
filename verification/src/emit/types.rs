//! Declared types, default values and feature gates, as source text.

use vstd::prelude::*;
use vstd::string::*;
use crate::names::constant_output_name;
use crate::names::screaming;
use crate::names::spec_constant_name;
use crate::names::spec_screaming;
use crate::repr::Decor;
use crate::repr::DecorType;
use crate::repr::DecorTypeView;
use crate::repr::FeatureHandle;
use crate::repr::TypeHandle;
use crate::repr::Vulkan;
use crate::repr::outer;
use crate::repr::spec_outer;
use crate::repr::VulkanView;
use crate::text::str_eq;

verus! {

/// What a decorator puts before the type that it wraps.
pub open spec fn spec_prefix(d: Decor) -> Seq<char> {
    match d {
        Decor::Const => Seq::empty(),
        Decor::ConstPtr => "*const "@,
        Decor::MutPtr => "*mut "@,
    }
}

/// The text after the prefixes of the first `n` decorators, the last of them first: the
/// outermost pointer is written first.
pub open spec fn spec_prefixes(acc: Seq<char>, decors: Seq<Decor>, n: int) -> Seq<char>
    decreases n,
{
    if n <= 0 || n > decors.len() {
        acc
    } else {
        spec_prefixes(acc + spec_prefix(decors[n - 1]), decors, n - 1)
    }
}

/// The output name of the type of a handle, if the handle is live.
pub open spec fn spec_base_name(v: VulkanView, h: TypeHandle) -> Option<Seq<char>> {
    if h.live(v.types.items.len()) {
        Some(v.types.items[h.0 - 1].head.output_name)
    } else {
        None
    }
}

/// The declared type without its array suffix: the base type behind its pointers. So the
/// chain `Const, ConstPtr, MutPtr` over `T` is written `*mut *const T`.
pub open spec fn spec_pointer_type(v: VulkanView, t: DecorTypeView) -> Option<Seq<char>> {
    match spec_base_name(v, t.handle) {
        Some(base) => Some(spec_prefixes(Seq::empty(), t.decors, t.decors.len() as int) + base),
        None => None,
    }
}

/// The text `[element; LEN as usize]`.
pub open spec fn spec_array(element: Seq<char>, len: Seq<char>) -> Seq<char> {
    "["@ + element + "; "@ + spec_constant_name(len) + " as usize]"@
}

/// A declared type as source text. There is none if its handle is not live.
pub open spec fn spec_type_text(v: VulkanView, t: DecorTypeView) -> Option<Seq<char>> {
    match spec_pointer_type(v, t) {
        Some(p) => match t.array {
            Some(len) => Some(spec_array(p, len)),
            None => Some(p),
        },
        None => None,
    }
}

/// The default of a type that is no pointer, by its output name: zero for the numbers of C,
/// the type's own default for every other type.
pub open spec fn spec_own_default(output: Seq<char>) -> Seq<char> {
    if output == "f32"@ || output == "f64"@ {
        "0.0"@
    } else if output == "i8"@ || output == "u8"@ || output == "i16"@ || output == "u16"@
        || output == "i32"@ || output == "u32"@ || output == "i64"@ || output == "u64"@ || output
        == "usize"@ || output == "c_int"@ || output == "c_char"@ {
        "0"@
    } else {
        "Default::default()"@
    }
}

/// The default value of one element of a declared type, in the structure whose output name
/// is `owner`: a null pointer of matching mutability behind a pointer, the enumerant named
/// after the structure for a structure type tag, the type's own default otherwise.
pub open spec fn spec_element_default(v: VulkanView, t: DecorTypeView, owner: Seq<char>) -> Option<
    Seq<char>,
> {
    match spec_outer(t.decors, t.decors.len() as int) {
        Some(Decor::ConstPtr) => Some("null()"@),
        Some(Decor::MutPtr) => Some("null_mut()"@),
        _ => if t.handle.live(v.types.items.len()) {
            let head = v.types.items[t.handle.0 - 1].head;
            if head.standard_name == "VkStructureType"@ {
                Some(head.output_name + "::"@ + spec_screaming(owner))
            } else {
                Some(spec_own_default(head.output_name))
            }
        } else {
            None
        },
    }
}

/// The default value of a declared type as source text.
pub open spec fn spec_default(v: VulkanView, t: DecorTypeView, owner: Seq<char>) -> Option<
    Seq<char>,
> {
    match spec_element_default(v, t, owner) {
        Some(d) => match t.array {
            Some(len) => Some(spec_array(d, len)),
            None => Some(d),
        },
        None => None,
    }
}

/// What gates an item that a feature introduces: one `cfg` attribute line, after the given
/// indentation. An item without a feature has no such line.
pub open spec fn spec_gate(v: VulkanView, feature: Option<FeatureHandle>, indent: Seq<char>) -> Seq<
    char,
> {
    match feature {
        Some(h) => if h.live(v.features.len()) {
            indent + "#[cfg(feature = \""@ + v.features[h.0 - 1].header.output_name + "\")]\n"@
        } else {
            Seq::empty()
        },
        None => Seq::empty(),
    }
}

/// The text after the conditions for the features from `i` on, each behind a comma. A handle
/// that is not live adds nothing.
pub open spec fn spec_conditions(
    acc: Seq<char>,
    v: VulkanView,
    later: Seq<FeatureHandle>,
    i: int,
) -> Seq<
    char,
>
    decreases later.len() - i,
{
    if i < 0 || i >= later.len() {
        acc
    } else if later[i].live(v.features.len()) {
        spec_conditions(
            acc + ", feature = \""@ + v.features[later[i].0 - 1].header.output_name + "\""@,
            v,
            later,
            i + 1,
        )
    } else {
        spec_conditions(acc, v, later, i + 1)
    }
}

/// What gates an item that several features introduce: one `cfg` attribute line that holds
/// if any of the features is on. With one feature it is the line that names that feature.
pub open spec fn spec_gate_any(
    v: VulkanView,
    feature: Option<FeatureHandle>,
    later: Seq<FeatureHandle>,
    indent: Seq<char>,
) -> Seq<char> {
    if later.len() == 0 {
        spec_gate(v, feature, indent)
    } else {
        match feature {
            Some(h) => if h.live(v.features.len()) {
                spec_conditions(
                    indent + "#[cfg(any(feature = \""@ + v.features[h.0 - 1].header.output_name
                        + "\""@,
                    v,
                    later,
                    0,
                ) + "))]\n"@
            } else {
                Seq::empty()
            },
            None => Seq::empty(),
        }
    }
}

/// What a decorator puts before the type that it wraps.
fn prefix(d: Decor) -> (r: &'static str)
    ensures
        r@ == spec_prefix(d),
{
    match d {
        Decor::Const => {
            proof {
                reveal_strlit("");
                assert(""@ =~= Seq::<char>::empty());
            }
            ""
        },
        Decor::ConstPtr => "*const ",
        Decor::MutPtr => "*mut ",
    }
}

/// Writes `[element; LEN as usize]`.
fn array(element: &str, len: &str) -> (r: String)
    ensures
        r@ == spec_array(element@, len@),
{
    let mut r = String::from_str("[");
    r.append(element);
    r.append("; ");
    let name = constant_output_name(len);
    r.append(name.as_str());
    r.append(" as usize]");
    r
}

impl Vulkan {
    /// The output name of the type of a handle.
    pub fn base_name(&self, h: TypeHandle) -> (r: Option<&str>)
        ensures
            r.deep_view() == spec_base_name(self.deep_view(), h),
    {
        if 1 <= h.0 && h.0 <= self.types.items.len() {
            proof {
                assert(self.deep_view().types.items[h.0 - 1] == self.types.items@[h.0
                    - 1].deep_view());
            }
            Some(self.types.items[h.0 - 1].head.output_name.as_str())
        } else {
            None
        }
    }

    /// Writes a declared type.
    pub fn type_text(&self, t: &DecorType) -> (r: Option<String>)
        ensures
            r.deep_view() == spec_type_text(self.deep_view(), t.deep_view()),
    {
        let base = match self.base_name(t.handle) {
            Some(b) => b,
            None => {
                return None;
            },
        };
        let mut out = String::new();
        let mut n: usize = t.decors.len();
        let ghost decors = t.decors.deep_view();
        proof {
            assert(decors =~= t.decors@);
        }
        while n > 0
            invariant
                decors == t.decors@,
                n <= t.decors.len(),
                spec_prefixes(out@, decors, n as int) == spec_prefixes(
                    Seq::empty(),
                    decors,
                    decors.len() as int,
                ),
            decreases n,
        {
            out.append(prefix(t.decors[n - 1]));
            n -= 1;
        }
        out.append(base);
        match &t.array {
            Some(len) => Some(array(out.as_str(), len.as_str())),
            None => Some(out),
        }
    }

    /// Writes the default value of a declared type, in the structure whose output name is
    /// `owner`.
    pub fn default_text(&self, t: &DecorType, owner: &str) -> (r: Option<String>)
        ensures
            r.deep_view() == spec_default(self.deep_view(), t.deep_view(), owner@),
    {
        let outer = outer(&t.decors);
        let element = match outer {
            Some(Decor::ConstPtr) => String::from_str("null()"),
            Some(Decor::MutPtr) => String::from_str("null_mut()"),
            _ => {
                if 1 <= t.handle.0 && t.handle.0 <= self.types.items.len() {
                    proof {
                        assert(self.deep_view().types.items[t.handle.0 - 1]
                            == self.types.items@[t.handle.0 - 1].deep_view());
                    }
                    let head = &self.types.items[t.handle.0 - 1].head;
                    if str_eq(head.standard_name.as_str(), "VkStructureType") {
                        let mut r = head.output_name.clone();
                        r.append("::");
                        let tag = screaming(owner);
                        r.append(tag.as_str());
                        r
                    } else {
                        String::from_str(own_default(head.output_name.as_str()))
                    }
                } else {
                    return None;
                }
            },
        };
        match &t.array {
            Some(len) => Some(array(element.as_str(), len.as_str())),
            None => Some(element),
        }
    }

    /// Writes the `cfg` attribute line of an item that several features introduce.
    pub fn gate_any(
        &self,
        feature: Option<FeatureHandle>,
        later: &Vec<FeatureHandle>,
        indent: &str,
    ) -> (r:
        String)
        ensures
            r@ == spec_gate_any(self.deep_view(), feature, later.deep_view(), indent@),
    {
        if later.len() == 0 {
            return self.gate(feature, indent);
        }
        let h = match feature {
            Some(h) => h,
            None => {
                return String::new();
            },
        };
        if !(1 <= h.0 && h.0 <= self.features.len()) {
            return String::new();
        }
        proof {
            assert(self.deep_view().features[h.0 - 1] == self.features@[h.0 - 1].deep_view());
        }
        let mut r = String::from_str(indent);
        r.append("#[cfg(any(feature = \"");
        r.append(self.features[h.0 - 1].header.output_name.as_str());
        r.append("\"");
        let ghost v = self.deep_view();
        let ghost views = later.deep_view();
        let ghost start = r@;
        let mut i: usize = 0;
        while i < later.len()
            invariant
                v == self.deep_view(),
                views == later.deep_view(),
                spec_conditions(r@, v, views, i as int) == spec_conditions(start, v, views, 0),
            decreases later.len() - i,
        {
            let g = later[i];
            proof {
                assert(views[i as int] == g);
            }
            if 1 <= g.0 && g.0 <= self.features.len() {
                proof {
                    assert(v.features[g.0 - 1] == self.features@[g.0 - 1].deep_view());
                }
                r.append(", feature = \"");
                r.append(self.features[g.0 - 1].header.output_name.as_str());
                r.append("\"");
            }
            i += 1;
        }
        r.append("))]\n");
        r
    }

    /// Writes the `cfg` attribute line of an item that a feature introduces.
    pub fn gate(&self, feature: Option<FeatureHandle>, indent: &str) -> (r: String)
        ensures
            r@ == spec_gate(self.deep_view(), feature, indent@),
    {
        match feature {
            Some(h) => {
                if 1 <= h.0 && h.0 <= self.features.len() {
                    proof {
                        assert(self.deep_view().features[h.0 - 1] == self.features@[h.0
                            - 1].deep_view());
                    }
                    let mut r = String::from_str(indent);
                    r.append("#[cfg(feature = \"");
                    r.append(self.features[h.0 - 1].header.output_name.as_str());
                    r.append("\")]\n");
                    r
                } else {
                    String::new()
                }
            },
            None => String::new(),
        }
    }
}

/// The default of a type that is no pointer, by its output name.
fn own_default(output: &str) -> (r: &'static str)
    ensures
        r@ == spec_own_default(output@),
{
    if str_eq(output, "f32") || str_eq(output, "f64") {
        "0.0"
    } else if str_eq(output, "i8") || str_eq(output, "u8") || str_eq(output, "i16") || str_eq(
        output,
        "u16",
    ) || str_eq(output, "i32") || str_eq(output, "u32") || str_eq(output, "i64") || str_eq(
        output,
        "u64",
    ) || str_eq(output, "usize") || str_eq(output, "c_int") || str_eq(output, "c_char") {
        "0"
    } else {
        "Default::default()"
    }
}

} // verus!
