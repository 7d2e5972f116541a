//! How names of the registry become names of the bindings.
//!
//! A name loses the prefix of its kind: `Vk` on types, `vk` on commands, `VK_` on constants
//! and features. Names of C and of the platforms, which the registry uses without declaring
//! them, are replaced by the names that the target language has for them.

use vstd::prelude::*;
use vstd::string::*;
use crate::text::has_prefix;
use crate::text::push_char;
use crate::text::spec_strip;
use crate::text::str_eq;
use crate::text::strip_prefix;

verus! {

/// The name of a type in the bindings: the standard name without a leading `Vk`.
pub open spec fn spec_type_name(standard: Seq<char>) -> Seq<char> {
    spec_strip(standard, "Vk"@)
}

/// The name of a command in the bindings: the standard name without a leading `vk`.
pub open spec fn spec_command_name(standard: Seq<char>) -> Seq<char> {
    spec_strip(standard, "vk"@)
}

/// The name of a constant or a feature in the bindings: the standard name without a leading
/// `VK_`.
pub open spec fn spec_constant_name(standard: Seq<char>) -> Seq<char> {
    spec_strip(standard, "VK_"@)
}

/// The name of a type in the bindings.
pub fn type_output_name(standard: &str) -> (r: String)
    ensures
        r@ == spec_type_name(standard@),
{
    strip_prefix(standard, "Vk")
}

/// The name of a command in the bindings.
pub fn command_output_name(standard: &str) -> (r: String)
    ensures
        r@ == spec_command_name(standard@),
{
    strip_prefix(standard, "vk")
}

/// The name of a constant or a feature in the bindings.
pub fn constant_output_name(standard: &str) -> (r: String)
    ensures
        r@ == spec_constant_name(standard@),
{
    strip_prefix(standard, "VK_")
}

/// A name that does not begin with the prefix is its own output name.
pub proof fn lemma_name_without_prefix_kept(standard: Seq<char>, prefix: Seq<char>)
    requires
        !has_prefix(standard, prefix),
    ensures
        spec_strip(standard, prefix) == standard,
{
}

/// Dropping a prefix maps two names to one output name only if one of them has the prefix
/// and the other has not: among names that all have it, or that all lack it, no two share an
/// output name.
pub proof fn lemma_strip_injective(a: Seq<char>, b: Seq<char>, prefix: Seq<char>)
    requires
        has_prefix(a, prefix) == has_prefix(b, prefix),
        spec_strip(a, prefix) == spec_strip(b, prefix),
    ensures
        a == b,
{
    if has_prefix(a, prefix) {
        let n = prefix.len() as int;
        assert(a =~= a.subrange(0, n) + a.subrange(n, a.len() as int));
        assert(b =~= b.subrange(0, n) + b.subrange(n, b.len() as int));
    }
}

/// Whether a character is an upper-case letter of ASCII.
pub open spec fn is_upper(c: char) -> bool {
    'A' <= c <= 'Z'
}

/// Whether a character is a lower-case letter of ASCII.
pub open spec fn is_lower(c: char) -> bool {
    'a' <= c <= 'z'
}

/// The upper-case letter for a lower-case letter of ASCII; any other character itself.
pub open spec fn spec_to_upper(c: char) -> char {
    if is_lower(c) {
        ((c as u8) - 32) as char
    } else {
        c
    }
}

/// The first `n` characters of a name in `SCREAMING_CASE`: an underscore goes before each
/// upper-case letter that follows a character that is none, and every letter is made upper
/// case.
pub open spec fn spec_screaming_prefix(name: Seq<char>, n: int) -> Seq<char>
    decreases n,
{
    if n <= 0 || n > name.len() {
        Seq::empty()
    } else {
        let before = spec_screaming_prefix(name, n - 1);
        let c = name[n - 1];
        if n >= 2 && is_upper(c) && !is_upper(name[n - 2]) {
            before.push('_').push(spec_to_upper(c))
        } else {
            before.push(spec_to_upper(c))
        }
    }
}

/// A name in `SCREAMING_CASE`.
pub open spec fn spec_screaming(name: Seq<char>) -> Seq<char> {
    spec_screaming_prefix(name, name.len() as int)
}

/// Makes a letter upper case.
pub fn to_upper(c: char) -> (r: char)
    ensures
        r == spec_to_upper(c),
{
    if 'a' <= c && c <= 'z' {
        ((c as u8) - 32) as char
    } else {
        c
    }
}

/// Writes a name in `SCREAMING_CASE`.
pub fn screaming(name: &str) -> (r: String)
    ensures
        r@ == spec_screaming(name@),
{
    let n = name.unicode_len();
    let mut r = String::new();
    let mut i: usize = 0;
    let mut prev_upper = true;
    while i < n
        invariant
            n == name@.len(),
            i <= n,
            r@ == spec_screaming_prefix(name@, i as int),
            i > 0 ==> prev_upper == is_upper(name@[i - 1]),
        decreases n - i,
    {
        let c = name.get_char(i);
        let upper = 'A' <= c && c <= 'Z';
        if i > 0 && upper && !prev_upper {
            push_char(&mut r, '_');
        }
        push_char(&mut r, to_upper(c));
        prev_upper = upper;
        i += 1;
    }
    r
}

/// The name that the target language has for a type of C, if the name is one.
pub open spec fn spec_c_type(name: Seq<char>) -> Option<Seq<char>> {
    if name == "void"@ {
        Some("c_void"@)
    } else if name == "char"@ {
        Some("c_char"@)
    } else if name == "int"@ {
        Some("c_int"@)
    } else if name == "float"@ {
        Some("f32"@)
    } else if name == "double"@ {
        Some("f64"@)
    } else if name == "int8_t"@ {
        Some("i8"@)
    } else if name == "uint8_t"@ {
        Some("u8"@)
    } else if name == "int16_t"@ {
        Some("i16"@)
    } else if name == "uint16_t"@ {
        Some("u16"@)
    } else if name == "int32_t"@ {
        Some("i32"@)
    } else if name == "uint32_t"@ {
        Some("u32"@)
    } else if name == "int64_t"@ {
        Some("i64"@)
    } else if name == "uint64_t"@ {
        Some("u64"@)
    } else if name == "size_t"@ {
        Some("usize"@)
    } else {
        None
    }
}

/// The name that the target language has for a type of C.
pub fn c_type(name: &str) -> (r: Option<&'static str>)
    ensures
        r.deep_view() == spec_c_type(name@),
{
    if str_eq(name, "void") {
        Some("c_void")
    } else if str_eq(name, "char") {
        Some("c_char")
    } else if str_eq(name, "int") {
        Some("c_int")
    } else if str_eq(name, "float") {
        Some("f32")
    } else if str_eq(name, "double") {
        Some("f64")
    } else if str_eq(name, "int8_t") {
        Some("i8")
    } else if str_eq(name, "uint8_t") {
        Some("u8")
    } else if str_eq(name, "int16_t") {
        Some("i16")
    } else if str_eq(name, "uint16_t") {
        Some("u16")
    } else if str_eq(name, "int32_t") {
        Some("i32")
    } else if str_eq(name, "uint32_t") {
        Some("u32")
    } else if str_eq(name, "int64_t") {
        Some("i64")
    } else if str_eq(name, "uint64_t") {
        Some("u64")
    } else if str_eq(name, "size_t") {
        Some("usize")
    } else {
        None
    }
}

/// The path that the target language has for a type of a platform, if the name is one.
pub open spec fn spec_platform_type(name: Seq<char>) -> Option<Seq<char>> {
    if name == "HWND"@ {
        Some("windows::Win32::Foundation::HWND"@)
    } else if name == "HINSTANCE"@ {
        Some("windows::Win32::Foundation::HINSTANCE"@)
    } else if name == "HANDLE"@ {
        Some("windows::Win32::Foundation::HANDLE"@)
    } else if name == "HMONITOR"@ {
        Some("windows::Win32::Graphics::Gdi::HMONITOR"@)
    } else if name == "SECURITY_ATTRIBUTES"@ {
        Some("windows::Win32::Security::SECURITY_ATTRIBUTES"@)
    } else if name == "DWORD"@ {
        Some("u32"@)
    } else if name == "LPCWSTR"@ {
        Some("windows::core::PCWSTR"@)
    } else {
        None
    }
}

/// The path that the target language has for a type of a platform.
pub fn platform_type(name: &str) -> (r: Option<&'static str>)
    ensures
        r.deep_view() == spec_platform_type(name@),
{
    if str_eq(name, "HWND") {
        Some("windows::Win32::Foundation::HWND")
    } else if str_eq(name, "HINSTANCE") {
        Some("windows::Win32::Foundation::HINSTANCE")
    } else if str_eq(name, "HANDLE") {
        Some("windows::Win32::Foundation::HANDLE")
    } else if str_eq(name, "HMONITOR") {
        Some("windows::Win32::Graphics::Gdi::HMONITOR")
    } else if str_eq(name, "SECURITY_ATTRIBUTES") {
        Some("windows::Win32::Security::SECURITY_ATTRIBUTES")
    } else if str_eq(name, "DWORD") {
        Some("u32")
    } else if str_eq(name, "LPCWSTR") {
        Some("windows::core::PCWSTR")
    } else {
        None
    }
}

/// The name that stands for a built-in name: that of a C type, else that of a platform type.
pub open spec fn spec_builtin(name: Seq<char>) -> Option<Seq<char>> {
    match spec_c_type(name) {
        Some(out) => Some(out),
        None => spec_platform_type(name),
    }
}

/// The name of the result type is no built-in name.
pub proof fn lemma_result_is_not_builtin()
    ensures
        spec_builtin("VkResult"@) is None,
{
    reveal_strlit("VkResult");
    reveal_strlit("void");
    reveal_strlit("char");
    reveal_strlit("int");
    reveal_strlit("float");
    reveal_strlit("double");
    reveal_strlit("int8_t");
    reveal_strlit("uint8_t");
    reveal_strlit("int16_t");
    reveal_strlit("uint16_t");
    reveal_strlit("int32_t");
    reveal_strlit("uint32_t");
    reveal_strlit("int64_t");
    reveal_strlit("uint64_t");
    reveal_strlit("size_t");
    reveal_strlit("HWND");
    reveal_strlit("HINSTANCE");
    reveal_strlit("HANDLE");
    reveal_strlit("HMONITOR");
    reveal_strlit("SECURITY_ATTRIBUTES");
    reveal_strlit("DWORD");
    reveal_strlit("LPCWSTR");
    let name = "VkResult"@;
    assert(name.len() == 8);
    assert(name[0] == 'V');
    assert("uint16_t"@[0] == 'u');
    assert("uint32_t"@[0] == 'u');
    assert("uint64_t"@[0] == 'u');
    assert("HMONITOR"@[0] == 'H');
}

/// The name that stands for a built-in name.
pub fn builtin(name: &str) -> (r: Option<&'static str>)
    ensures
        r.deep_view() == spec_builtin(name@),
{
    match c_type(name) {
        Some(out) => Some(out),
        None => platform_type(name),
    }
}

} // verus!
