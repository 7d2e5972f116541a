use gen_vulkan::names::builtin;
use gen_vulkan::names::c_type;
use gen_vulkan::names::command_output_name;
use gen_vulkan::names::constant_output_name;
use gen_vulkan::names::platform_type;
use gen_vulkan::names::screaming;
use gen_vulkan::names::to_upper;
use gen_vulkan::names::type_output_name;
use gen_vulkan::repr::StructDetails;
use gen_vulkan::repr::StructType;
use gen_vulkan::repr::TypeCommon;
use gen_vulkan::text::decimal;
use gen_vulkan::text::find_char;
use gen_vulkan::text::join3;
use gen_vulkan::text::join5;
use gen_vulkan::text::join7;
use gen_vulkan::text::split_at_char;
use gen_vulkan::text::starts_alphabetic;
use gen_vulkan::text::starts_with;
use gen_vulkan::text::str_eq;
use gen_vulkan::text::strip_prefix;
use gen_vulkan::trans::numbers::parse_i64;
use gen_vulkan::trans::numbers::parse_u64;

#[test]
fn type_names_lose_their_prefix() {
    assert_eq!(type_output_name("VkApplicationInfo"), "ApplicationInfo");
    assert_eq!(type_output_name("Vk"), "");
    assert_eq!(type_output_name("VkVk"), "Vk");
}

#[test]
fn name_without_the_prefix_is_kept() {
    assert_eq!(type_output_name("Display"), "Display");
    assert_eq!(type_output_name("vkFoo"), "vkFoo");
    assert_eq!(type_output_name("V"), "V");
    assert_eq!(type_output_name(""), "");
    assert_eq!(type_output_name("PFN_vkVoidFunction"), "PFN_vkVoidFunction");
}

#[test]
fn command_and_constant_names_lose_their_prefix() {
    assert_eq!(command_output_name("vkCreateInstance"), "CreateInstance");
    assert_eq!(command_output_name("CreateInstance"), "CreateInstance");
    assert_eq!(constant_output_name("VK_MAX_EXTENSION_NAME_SIZE"), "MAX_EXTENSION_NAME_SIZE");
    assert_eq!(constant_output_name("VK_KHR_portability_enumeration"), "KHR_portability_enumeration");
    assert_eq!(constant_output_name("MAX"), "MAX");
}

#[test]
fn output_names_are_distinct_among_names_with_the_prefix() {
    let names = ["VkA", "VkAa", "VkB", "VkVkA", "VkStructureType"];
    for a in names {
        for b in names {
            if a != b {
                assert_ne!(type_output_name(a), type_output_name(b));
            }
        }
    }
    assert_eq!(type_output_name("VkFoo"), type_output_name("Foo"));
}

#[test]
fn struct_type_output_name() {
    let make = |name: &str| StructType {
        common: TypeCommon {
            standard_name: name.to_string(),
            output_name: String::new(),
            standard_aliases: Vec::new(),
            deprecated: None,
            requires: None,
            feature: None,
            later_features: Vec::new(),
        },
        details: StructDetails { members: Vec::new(), extends: Vec::new(), returned_only: false },
    };
    assert_eq!(make("VkFoo").output_name(), "Foo");
    assert_eq!(make("Foo").output_name(), "Foo");
}

#[test]
fn screaming_case() {
    assert_eq!(screaming("ApplicationInfo"), "APPLICATION_INFO");
    assert_eq!(screaming("InstanceCreateInfo"), "INSTANCE_CREATE_INFO");
    assert_eq!(screaming("Foo"), "FOO");
    assert_eq!(screaming("foo"), "FOO");
    assert_eq!(screaming("fooBar"), "FOO_BAR");
    assert_eq!(screaming("ABc"), "ABC");
    assert_eq!(screaming("Features2"), "FEATURES2");
    assert_eq!(screaming("x2Y"), "X2_Y");
    assert_eq!(screaming(""), "");
    assert_eq!(to_upper('a'), 'A');
    assert_eq!(to_upper('z'), 'Z');
    assert_eq!(to_upper('A'), 'A');
    assert_eq!(to_upper('1'), '1');
    assert_eq!(to_upper('_'), '_');
}

#[test]
fn names_of_c_and_of_the_platforms() {
    assert_eq!(c_type("void"), Some("c_void"));
    assert_eq!(c_type("char"), Some("c_char"));
    assert_eq!(c_type("int"), Some("c_int"));
    assert_eq!(c_type("float"), Some("f32"));
    assert_eq!(c_type("double"), Some("f64"));
    assert_eq!(c_type("int8_t"), Some("i8"));
    assert_eq!(c_type("uint8_t"), Some("u8"));
    assert_eq!(c_type("int16_t"), Some("i16"));
    assert_eq!(c_type("uint16_t"), Some("u16"));
    assert_eq!(c_type("int32_t"), Some("i32"));
    assert_eq!(c_type("uint32_t"), Some("u32"));
    assert_eq!(c_type("int64_t"), Some("i64"));
    assert_eq!(c_type("uint64_t"), Some("u64"));
    assert_eq!(c_type("size_t"), Some("usize"));
    assert_eq!(c_type("HWND"), None);
    assert_eq!(platform_type("HWND"), Some("windows::Win32::Foundation::HWND"));
    assert_eq!(platform_type("HINSTANCE"), Some("windows::Win32::Foundation::HINSTANCE"));
    assert_eq!(platform_type("HANDLE"), Some("windows::Win32::Foundation::HANDLE"));
    assert_eq!(platform_type("HMONITOR"), Some("windows::Win32::Graphics::Gdi::HMONITOR"));
    assert_eq!(platform_type("SECURITY_ATTRIBUTES"), Some("windows::Win32::Security::SECURITY_ATTRIBUTES"));
    assert_eq!(platform_type("DWORD"), Some("u32"));
    assert_eq!(platform_type("LPCWSTR"), Some("windows::core::PCWSTR"));
    assert_eq!(platform_type("uint32_t"), None);
    assert_eq!(builtin("uint32_t"), Some("u32"));
    assert_eq!(builtin("HWND"), Some("windows::Win32::Foundation::HWND"));
    assert_eq!(builtin("VkFoo"), None);
}

#[test]
fn text_helpers() {
    assert!(str_eq("abc", "abc"));
    assert!(!str_eq("abc", "abd"));
    assert!(!str_eq("abc", "ab"));
    assert!(str_eq("", ""));
    assert!(str_eq("\u{e9}", "\u{e9}"));
    assert_eq!(split_at_char("a,b,,c", ','), vec!["a", "b", "", "c"]);
    assert_eq!(split_at_char("", ','), vec![""]);
    assert_eq!(split_at_char(",", ','), vec!["", ""]);
    assert_eq!(split_at_char("abc", ','), vec!["abc"]);
    assert_eq!(find_char("a[b]", '['), 1);
    assert_eq!(find_char("abc", '['), 3);
    assert!(starts_with("VkFoo", "Vk"));
    assert!(!starts_with("V", "Vk"));
    assert!(starts_with("Vk", ""));
    assert_eq!(strip_prefix("VK_A", "VK_"), "A");
    assert_eq!(strip_prefix("A", "VK_"), "A");
    assert!(starts_alphabetic("pCount"));
    assert!(starts_alphabetic("\u{e9}"));
    assert!(!starts_alphabetic("2*x"));
    assert!(!starts_alphabetic("_x"));
    assert!(!starts_alphabetic(""));
    assert_eq!(decimal(0), "0");
    assert_eq!(decimal(7), "7");
    assert_eq!(decimal(10), "10");
    assert_eq!(decimal(1234567890), "1234567890");
    assert_eq!(decimal(u64::MAX as u128 + 1), "18446744073709551616");
    assert_eq!(join3("a", "b", "c"), "abc");
    assert_eq!(join5("a", "b", "c", "d", "e"), "abcde");
    assert_eq!(join7("a", "b", "c", "d", "e", "f", "g"), "abcdefg");
}

#[test]
fn numbers() {
    assert_eq!(parse_u64("0"), Some(0));
    assert_eq!(parse_u64("42"), Some(42));
    assert_eq!(parse_u64("007"), Some(7));
    assert_eq!(parse_u64("18446744073709551615"), Some(u64::MAX));
    assert_eq!(parse_u64("18446744073709551616"), None);
    assert_eq!(parse_u64(""), None);
    assert_eq!(parse_u64("-1"), None);
    assert_eq!(parse_u64("1a"), None);
    assert_eq!(parse_u64("0x10"), None);
    assert_eq!(parse_i64("0"), Some(0));
    assert_eq!(parse_i64("-4"), Some(-4));
    assert_eq!(parse_i64("1000156000"), Some(1000156000));
    assert_eq!(parse_i64("0x7FFFFFFF"), Some(0x7FFF_FFFF));
    assert_eq!(parse_i64("0x00000010"), Some(16));
    assert_eq!(parse_i64("0Xff"), Some(255));
    assert_eq!(parse_i64("-0x10"), Some(-16));
    assert_eq!(parse_i64("9223372036854775807"), Some(i64::MAX));
    assert_eq!(parse_i64("9223372036854775808"), None);
    assert_eq!(parse_i64("-9223372036854775807"), Some(-i64::MAX));
    assert_eq!(parse_i64(""), None);
    assert_eq!(parse_i64("-"), None);
    assert_eq!(parse_i64("0x"), None);
    assert_eq!(parse_i64("(~0U)"), None);
    assert_eq!(parse_i64("1000.0F"), None);
    assert_eq!(parse_i64("12 "), None);
}
