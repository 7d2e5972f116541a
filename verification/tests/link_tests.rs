use gen_vulkan::error::Error;
use gen_vulkan::error::ParseError;
use gen_vulkan::error::TransError;
use gen_vulkan::events::read_tokens;
use gen_vulkan::parse::Dir;
use gen_vulkan::parse::EnumsType;
use gen_vulkan::parse::GenericItem;
use gen_vulkan::parse::GenericItemKind;
use gen_vulkan::parse::Reader;
use gen_vulkan::repr::Decor;
use gen_vulkan::repr::Deprecation;
use gen_vulkan::repr::EnumNumber;
use gen_vulkan::repr::FeatureDetails;
use gen_vulkan::repr::FeatureHandle;
use gen_vulkan::repr::Member;
use gen_vulkan::repr::TypeDetails;
use gen_vulkan::repr::TypeHandle;
use gen_vulkan::repr::Vulkan;
use gen_vulkan::trans::decl::Decl;
use gen_vulkan::trans::gather::offset_value;
use gen_vulkan::trans::gather::EXTENSION_BASE;
use gen_vulkan::trans::lookup::api_ok;
use gen_vulkan::trans::lookup::api_text_ok;
use gen_vulkan::trans::lookup::find;
use gen_vulkan::trans::lookup::NameMap;

fn link(xml: &str) -> Vulkan {
    match Vulkan::from_xml(xml.as_bytes()) {
        Ok(v) => v,
        Err(e) => panic!("{}", e.message()),
    }
}

fn trans_error(xml: &str) -> TransError {
    match Vulkan::from_xml(xml.as_bytes()) {
        Err(Error::Trans(e)) => e,
        Err(e) => panic!("{}", e.message()),
        Ok(_) => panic!("the registry linked"),
    }
}

fn item(kind: GenericItemKind, text: &str) -> GenericItem {
    GenericItem { text: text.to_string(), kind }
}

fn decl(items: Vec<GenericItem>) -> Decl {
    Decl::from_items(&items).unwrap()
}

fn type_handles(v: &Vulkan) -> Vec<TypeHandle> {
    let mut out = Vec::new();
    let members = |ms: &Vec<Member>, out: &mut Vec<TypeHandle>| {
        for m in ms {
            out.push(m.decor_type.handle);
        }
    };
    for t in &v.types.items {
        out.extend(t.head.requires);
        match &t.body {
            TypeDetails::Base(d) => out.extend(d.target),
            TypeDetails::Handle(d) => out.extend(d.parent),
            TypeDetails::Bitmask(d) => {
                out.push(d.output_type);
                out.extend(d.bit_values);
            }
            TypeDetails::Struct(d) => {
                members(&d.members, &mut out);
                out.extend(d.extends.iter().copied());
            }
            TypeDetails::Union(d) => members(&d.members, &mut out),
            _ => {}
        }
    }
    for c in &v.commands {
        out.push(c.returns.handle);
        members(&c.params, &mut out);
    }
    for e in &v.enums {
        out.extend(e.handle);
    }
    out.extend(v.types.struct_types.iter().copied());
    out.extend(v.types.union_types.iter().copied());
    out.extend(v.types.enum_types.iter().copied());
    out.extend(v.types.bitmask_types.iter().copied());
    out.extend(v.types.result_type);
    out
}

const SAMPLE: &str = "<registry>\
<platforms><platform name=\"win32\" protect=\"VK_USE_PLATFORM_WIN32_KHR\"/></platforms>\
<tags><tag name=\"KHR\" author=\"Khronos\" contact=\"x\"/></tags>\
<types>\
<type name=\"vk_platform\" category=\"include\">#include \"vk_platform.h\"</type>\
<type requires=\"vk_platform\" name=\"uint32_t\"/>\
<type category=\"basetype\">typedef <type>uint32_t</type> <name>VkFlags</name>;</type>\
<type category=\"handle\"><type>VK_DEFINE_HANDLE</type>(<name>VkInstance</name>)</type>\
<type category=\"handle\" parent=\"VkInstance\"><type>VK_DEFINE_HANDLE</type>(<name>VkDevice</name>)</type>\
<type name=\"VkResult\" category=\"enum\"/>\
<type name=\"VkStructureType\" category=\"enum\"/>\
<type name=\"VkBits\" category=\"enum\"/>\
<type requires=\"VkBits\" category=\"bitmask\">typedef <type>VkFlags</type> <name>VkMask</name>;</type>\
<type category=\"struct\" name=\"VkBase\"><member><type>VkStructureType</type> <name>sType</name></member><member optional=\"true\">const <type>void</type>* <name>pNext</name></member></type>\
<type category=\"struct\" name=\"VkInfo\" structextends=\"VkBase\" returnedonly=\"true\">\
<member><type>VkStructureType</type> <name>sType</name></member>\
<member>struct <type>VkInfo</type>* <name>pSelf</name></member>\
<member>const <type>char</type>* const* <name>ppNames</name></member>\
<member><type>float</type> <name>matrix</name>[4]</member>\
<member><type>uint8_t</type> <name>uuid</name>[<enum>VK_UUID_SIZE</enum>]</member>\
<member api=\"vulkansc\"><type>VkMissing</type> <name>sc</name></member>\
<member><type>VkMask</type> <name>flags</name></member>\
</type>\
<type category=\"struct\" name=\"VkInfoKHR\" alias=\"VkInfo\"/>\
<type category=\"union\" name=\"VkValue\"><member><type>float</type> <name>f</name></member><member><type>VkInfoKHR</type> <name>info</name></member></type>\
<type category=\"struct\" name=\"VkOther\" api=\"vulkansc\"><member><type>VkMissing</type> <name>x</name></member></type>\
</types>\
<enums name=\"API Constants\" type=\"constants\"><enum type=\"uint32_t\" value=\"16\" name=\"VK_UUID_SIZE\"/></enums>\
<enums name=\"VkResult\" type=\"enum\"><enum value=\"0\" name=\"VK_SUCCESS\"/><enum value=\"1\" name=\"VK_NOT_READY\"/><enum value=\"-1\" name=\"VK_ERROR_OUT_OF_HOST_MEMORY\"/><enum name=\"VK_OK\" alias=\"VK_SUCCESS\"/><enum value=\"7\" name=\"VK_SC_ONLY\" api=\"vulkansc\"/></enums>\
<enums name=\"VkBits\" type=\"bitmask\"><enum bitpos=\"0\" name=\"VK_BIT_A\"/><enum value=\"0x10\" name=\"VK_BIT_MASK\"/></enums>\
<commands>\
<command><proto><type>VkResult</type> <name>vkCreate</name></proto><param>const <type>VkInfo</type>* <name>pInfo</name></param><param><type>VkInstance</type>* <name>pInstance</name></param><param api=\"vulkansc\"><type>VkMissing</type> <name>x</name></param></command>\
<command><proto><type>void</type> <name>vkDestroy</name></proto><param><type>VkInstance</type> <name>instance</name></param><param><type>size_t</type> <name>count</name></param></command>\
<command name=\"vkCreateKHR\" alias=\"vkCreate\"/>\
<command api=\"vulkansc\"><proto><type>VkMissing</type> <name>vkSc</name></proto></command>\
</commands>\
<feature api=\"vulkan\" name=\"VK_VERSION_1_0\" number=\"1.0\"><require><type name=\"VkInfo\"/><command name=\"vkCreate\"/><enum offset=\"1\" extends=\"VkResult\" extnumber=\"3\" dir=\"-\" name=\"VK_ERROR_CORE\"/></require><require api=\"vulkansc\"><type name=\"VkBase\"/></require></feature>\
<extensions>\
<extension name=\"VK_KHR_a\" number=\"4\" supported=\"vulkan\" platform=\"win32\"><require><type name=\"VkInfo\"/><type name=\"VkValue\"/><command name=\"vkDestroy\"/>\
<enum offset=\"3\" extends=\"VkResult\" name=\"VK_RESULT_A\"/>\
<enum offset=\"3\" extends=\"VkResult\" dir=\"-\" name=\"VK_ERROR_A\"/>\
<enum offset=\"0\" extends=\"VkResult\" extnumber=\"2\" name=\"VK_RESULT_B\"/>\
<enum bitpos=\"5\" extends=\"VkBits\" name=\"VK_BIT_B\"/>\
<enum value=\"9\" extends=\"VkResult\" name=\"VK_RESULT_NINE\"/>\
<enum extends=\"VkResult\" name=\"VK_RESULT_ALIAS\" alias=\"VK_RESULT_A\"/>\
<enum extends=\"VkResult\" name=\"VK_SUCCESS\"/>\
<enum value=\"1\" name=\"VK_KHR_A_SPEC_VERSION\"/>\
<enum offset=\"3\" extends=\"VkResult\" name=\"VK_RESULT_SC\" api=\"vulkansc\"/>\
</require></extension>\
<extension name=\"VK_KHR_b\" number=\"5\" supported=\"vulkan\"><require><enum offset=\"3\" extends=\"VkResult\" name=\"VK_RESULT_A\"/></require></extension>\
<extension name=\"VK_KHR_off\" number=\"6\" supported=\"disabled\"><require><type name=\"VkBase\"/></require></extension>\
</extensions>\
<formats/><sync/><formats/>\
</registry>";

#[test]
fn handles_are_given_in_source_order_from_one() {
    let v = link(SAMPLE);
    let names: Vec<&str> = v.types.items.iter().map(|t| t.head.standard_name.as_str()).collect();
    assert_eq!(
        names,
        vec![
            "vk_platform",
            "uint32_t",
            "VkFlags",
            "VkInstance",
            "VkDevice",
            "VkResult",
            "VkStructureType",
            "VkBits",
            "VkMask",
            "VkBase",
            "VkInfo",
            "VkValue",
            "void",
            "char",
            "float",
            "uint8_t",
            "size_t",
        ]
    );
    assert!(matches!(v.types.get(TypeHandle(1)), Some(t) if t.head.standard_name == "vk_platform"));
    assert!(matches!(v.types.get(TypeHandle(17)), Some(t) if t.head.standard_name == "size_t"));
    assert!(v.types.get(TypeHandle(0)).is_none());
    assert!(v.types.get(TypeHandle(18)).is_none());
}

#[test]
fn every_handle_refers_to_a_live_type() {
    let v = link(SAMPLE);
    let n = v.types.items.len();
    let handles = type_handles(&v);
    assert!(handles.len() > 20);
    for h in handles {
        assert!(1 <= h.0 && h.0 <= n);
        assert!(v.types.get(h).is_some());
    }
    let f = v.features.len();
    for t in &v.types.items {
        if let Some(h) = t.head.feature {
            assert!(1 <= h.0 && h.0 <= f);
        }
    }
    for c in &v.commands {
        if let Some(h) = c.head.feature {
            assert!(1 <= h.0 && h.0 <= f);
        }
    }
    for e in &v.enums {
        for value in &e.values {
            if let Some(h) = value.feature {
                assert!(1 <= h.0 && h.0 <= f);
            }
        }
    }
}

#[test]
fn output_names_follow_the_kind_of_type() {
    let v = link(SAMPLE);
    let out = |name: &str| {
        v.types.items.iter().find(|t| t.head.standard_name == name).unwrap().head.output_name.clone()
    };
    assert_eq!(out("VkInfo"), "Info");
    assert_eq!(out("VkResult"), "Result");
    assert_eq!(out("vk_platform"), "vk_platform");
    assert_eq!(out("uint32_t"), "u32");
    assert_eq!(out("void"), "c_void");
    assert_eq!(out("char"), "c_char");
    assert_eq!(out("float"), "f32");
    assert_eq!(out("size_t"), "usize");
}

#[test]
fn categories_and_result_type() {
    let v = link(SAMPLE);
    assert_eq!(v.types.struct_types, vec![TypeHandle(10), TypeHandle(11)]);
    assert_eq!(v.types.union_types, vec![TypeHandle(12)]);
    assert_eq!(v.types.enum_types, vec![TypeHandle(6), TypeHandle(7), TypeHandle(8)]);
    assert_eq!(v.types.bitmask_types, vec![TypeHandle(9)]);
    assert_eq!(v.types.result_type, Some(TypeHandle(6)));
    assert!(v.has_structs());
    assert!(v.has_unions());
    assert!(v.has_enum_types());
    assert!(v.has_bitmask_types());
    assert!(v.has_commands());
    assert!(v.has_result_type());
    let empty = link("<registry/>");
    assert!(!empty.has_structs());
    assert!(!empty.has_unions());
    assert!(!empty.has_enum_types());
    assert!(!empty.has_bitmask_types());
    assert!(!empty.has_commands());
    assert!(!empty.has_result_type());
    assert_eq!(empty.types.result_type, None);
}

#[test]
fn bodies_hold_handles() {
    let v = link(SAMPLE);
    assert!(matches!(&v.types.items[1].head.requires, Some(TypeHandle(1))));
    assert!(matches!(&v.types.items[2].body, TypeDetails::Base(d) if d.target == Some(TypeHandle(2))));
    assert!(matches!(&v.types.items[3].body, TypeDetails::Handle(d) if d.parent.is_none()));
    assert!(matches!(&v.types.items[4].body, TypeDetails::Handle(d) if d.parent == Some(TypeHandle(4))));
    assert!(matches!(&v.types.items[8].body, TypeDetails::Bitmask(d) if d.output_type == TypeHandle(3) && d.bit_values == Some(TypeHandle(8))));
    assert!(matches!(&v.types.items[0].body, TypeDetails::Include(_)));
    assert!(matches!(&v.types.items[5].body, TypeDetails::Enum(_)));
    assert!(matches!(&v.types.items[12].body, TypeDetails::Imported(_)));
    match &v.types.items[10].body {
        TypeDetails::Struct(d) => {
            assert!(d.returned_only);
            assert_eq!(d.extends, vec![TypeHandle(10)]);
            let names: Vec<&str> = d.members.iter().map(|m| m.name.as_str()).collect();
            assert_eq!(names, vec!["sType", "pSelf", "ppNames", "matrix", "uuid", "flags"]);
            assert_eq!(d.members[0].decor_type.handle, TypeHandle(7));
            assert!(d.members[0].decor_type.decors.is_empty());
            assert_eq!(d.members[1].decor_type.handle, TypeHandle(11));
            assert_eq!(d.members[1].decor_type.decors, vec![Decor::MutPtr]);
            assert_eq!(d.members[2].decor_type.handle, TypeHandle(14));
            assert_eq!(d.members[2].decor_type.decors, vec![Decor::Const, Decor::ConstPtr, Decor::Const, Decor::ConstPtr]);
            assert_eq!(d.members[3].decor_type.array.as_deref(), Some("4"));
            assert_eq!(d.members[4].decor_type.array.as_deref(), Some("VK_UUID_SIZE"));
            assert_eq!(d.members[5].decor_type.handle, TypeHandle(9));
        }
        _ => panic!("expected a structure"),
    }
    match &v.types.items[11].body {
        TypeDetails::Union(d) => {
            assert_eq!(d.members.len(), 2);
            assert_eq!(d.members[1].decor_type.handle, TypeHandle(11));
        }
        _ => panic!("expected a union"),
    }
    assert_eq!(v.types.items[10].head.standard_aliases, vec!["VkInfoKHR".to_string()]);
    assert!(v.types.items[9].head.standard_aliases.is_empty());
}

#[test]
fn features_in_document_order() {
    let v = link(SAMPLE);
    let names: Vec<(&str, &str)> = v
        .features
        .iter()
        .map(|f| (f.header.standard_name.as_str(), f.header.output_name.as_str()))
        .collect();
    assert_eq!(
        names,
        vec![
            ("win32", "win32"),
            ("VK_VERSION_1_0", "VERSION_1_0"),
            ("VK_KHR_a", "KHR_a"),
            ("VK_KHR_b", "KHR_b"),
        ]
    );
    assert!(matches!(&v.features[0].details, FeatureDetails::Platform(p) if p.protect == "VK_USE_PLATFORM_WIN32_KHR"));
    assert!(matches!(&v.features[1].details, FeatureDetails::Core(c) if c.number == "1.0"));
    assert!(matches!(&v.features[2].details, FeatureDetails::Extension(e) if e.number == 4 && e.platform.as_deref() == Some("win32")));
}

#[test]
fn a_type_belongs_to_the_feature_that_requires_it_first() {
    let v = link(SAMPLE);
    let feature = |name: &str| v.types.items.iter().find(|t| t.head.standard_name == name).unwrap().head.feature;
    assert_eq!(feature("VkInfo"), Some(FeatureHandle(2)));
    assert_eq!(feature("VkValue"), Some(FeatureHandle(3)));
    assert_eq!(feature("VkBase"), None);
    assert_eq!(feature("VkInstance"), None);
    assert_eq!(v.commands[0].head.feature, Some(FeatureHandle(2)));
    assert_eq!(v.commands[1].head.feature, Some(FeatureHandle(3)));
    let later = |name: &str| {
        v.types.items.iter().find(|t| t.head.standard_name == name).unwrap().head.later_features.clone()
    };
    assert_eq!(later("VkInfo"), vec![FeatureHandle(3)]);
    assert!(later("VkValue").is_empty());
    assert!(later("VkBase").is_empty());
    assert!(v.commands[0].head.later_features.is_empty());
}

#[test]
fn extensions_are_taken_in_ascending_order_of_their_numbers() {
    let v = link(
        "<registry><types><type category=\"struct\" name=\"VkA\"/><type category=\"enum\" name=\"VkE\"/></types>\
         <enums name=\"VkE\" type=\"enum\"/>\
         <extensions>\
         <extension name=\"VK_c\" number=\"30\" supported=\"vulkan\"><require><type name=\"VkA\"/><enum value=\"3\" extends=\"VkE\" name=\"VK_E_C\"/></require></extension>\
         <extension name=\"VK_a\" number=\"10\" supported=\"vulkan\"><require><type name=\"VkA\"/><enum value=\"1\" extends=\"VkE\" name=\"VK_E_A\"/></require></extension>\
         <extension name=\"VK_b2\" number=\"20\" supported=\"vulkan\"><require><enum value=\"22\" extends=\"VkE\" name=\"VK_E_B2\"/></require></extension>\
         <extension name=\"VK_off\" number=\"5\" supported=\"disabled\"><require><type name=\"VkA\"/></require></extension>\
         <extension name=\"VK_b1\" number=\"20\" supported=\"vulkan\"><require><enum value=\"21\" extends=\"VkE\" name=\"VK_E_B1\"/></require></extension>\
         </extensions>\
         <feature api=\"vulkan\" name=\"VK_VERSION_1_0\" number=\"1.0\"/>\
         <extensions><extension name=\"VK_z\" number=\"1\" supported=\"vulkan\"/></extensions>\
         </registry>",
    );
    let names: Vec<&str> = v.features.iter().map(|f| f.header.standard_name.as_str()).collect();
    assert_eq!(names, vec!["VK_a", "VK_b2", "VK_b1", "VK_c", "VK_VERSION_1_0", "VK_z"]);
    assert_eq!(v.types.items[0].head.feature, Some(FeatureHandle(1)));
    assert_eq!(v.types.items[0].head.later_features, vec![FeatureHandle(4)]);
    let values: Vec<&str> = v.enums[0].values.iter().map(|x| x.standard_name.as_str()).collect();
    assert_eq!(values, vec!["VK_E_A", "VK_E_B2", "VK_E_B1", "VK_E_C"]);
}

#[test]
fn commands_are_lowered() {
    let v = link(SAMPLE);
    assert_eq!(v.commands.len(), 2);
    let c = &v.commands[0];
    assert_eq!(c.head.standard_name, "vkCreate");
    assert_eq!(c.head.output_name, "Create");
    assert_eq!(c.head.standard_aliases, vec!["vkCreateKHR".to_string()]);
    assert_eq!(c.returns.handle, TypeHandle(6));
    assert_eq!(c.params.len(), 2);
    assert_eq!(c.params[0].name, "pInfo");
    assert_eq!(c.params[0].decor_type.handle, TypeHandle(11));
    assert_eq!(c.params[0].decor_type.decors, vec![Decor::Const, Decor::ConstPtr]);
    assert_eq!(c.params[1].decor_type.decors, vec![Decor::MutPtr]);
    let d = &v.commands[1];
    assert_eq!(d.head.output_name, "Destroy");
    assert_eq!(d.returns.handle, TypeHandle(13));
    assert_eq!(d.params[1].decor_type.handle, TypeHandle(17));
}

#[test]
fn enumerants_and_patches() {
    let v = link(SAMPLE);
    assert_eq!(v.enums.len(), 3);
    let constants = &v.enums[0];
    assert_eq!(constants.standard_name, "API Constants");
    assert!(constants.kind == EnumsType::Constants);
    assert_eq!(constants.handle, None);
    assert!(matches!(&constants.values[0].number, EnumNumber::Constant(v, t) if v == "16" && t == "uint32_t"));
    assert_eq!(constants.values[0].output_name, "UUID_SIZE");
    let result = &v.enums[1];
    assert_eq!(result.output_name, "Result");
    assert_eq!(result.handle, Some(TypeHandle(6)));
    assert_eq!(result.bit_width, 32);
    let values: Vec<(String, Option<i64>, Option<usize>)> = result
        .values
        .iter()
        .map(|x| {
            (
                x.standard_name.clone(),
                match x.number {
                    EnumNumber::Value(n) => Some(n),
                    _ => None,
                },
                x.feature.map(|f| f.0),
            )
        })
        .collect();
    let base = EXTENSION_BASE as i64;
    assert_eq!(
        values,
        vec![
            ("VK_SUCCESS".to_string(), Some(0), None),
            ("VK_NOT_READY".to_string(), Some(1), None),
            ("VK_ERROR_OUT_OF_HOST_MEMORY".to_string(), Some(-1), None),
            ("VK_OK".to_string(), None, None),
            ("VK_ERROR_CORE".to_string(), Some(-(base + 2001)), Some(2)),
            ("VK_RESULT_A".to_string(), Some(base + 3003), Some(3)),
            ("VK_ERROR_A".to_string(), Some(-(base + 3003)), Some(3)),
            ("VK_RESULT_B".to_string(), Some(base + 1000), Some(3)),
            ("VK_RESULT_NINE".to_string(), Some(9), Some(3)),
            ("VK_RESULT_ALIAS".to_string(), None, Some(3)),
        ]
    );
    assert!(matches!(&result.values[3].number, EnumNumber::Alias(a) if a == "VK_SUCCESS"));
    assert!(matches!(&result.values[9].number, EnumNumber::Alias(a) if a == "VK_RESULT_A"));
    let bits = &v.enums[2];
    assert!(bits.kind == EnumsType::Bitmask);
    assert!(matches!(bits.values[0].number, EnumNumber::Bit(0)));
    assert!(matches!(bits.values[1].number, EnumNumber::Value(16)));
    assert!(matches!(bits.values[2].number, EnumNumber::Bit(5)));
    assert_eq!(bits.values[2].feature, Some(FeatureHandle(3)));
}

#[test]
fn offset_formula() {
    let base = 1_000_000_000i64;
    assert_eq!(EXTENSION_BASE, 1_000_000_000);
    assert_eq!(offset_value(4, 3, Some(Dir::Pos)), Some(base + 3003));
    assert_eq!(offset_value(4, 3, None), Some(base + 3003));
    assert_eq!(offset_value(4, 3, Some(Dir::Neg)), Some(-(base + 3003)));
    assert_eq!(offset_value(1, 0, None), Some(base));
    assert_eq!(offset_value(0, 0, None), None);
    assert_eq!(offset_value(u64::MAX, 0, None), None);
    assert_eq!(offset_value(1, u64::MAX, None), None);
    assert_eq!(offset_value(1, i64::MAX as u64, None), None);
}

#[test]
fn left_out_kinds_are_warnings() {
    let v = link(SAMPLE);
    assert_eq!(v.warnings, vec!["tags".to_string(), "formats".to_string(), "sync".to_string()]);
    let v = link("<registry><videocodecs/><spirvextensions/><spirvcapabilities/><comment>x</comment></registry>");
    assert_eq!(
        v.warnings,
        vec!["videocodecs".to_string(), "spirvextensions".to_string(), "spirvcapabilities".to_string()]
    );
}

#[test]
fn dangling_reference_is_not_found() {
    assert!(matches!(
        trans_error("<registry><types><type category=\"struct\" name=\"VkFoo\"><member><type>VkBar</type><name>x</name></member></type></types></registry>"),
        TransError::TypeNotFound(n) if n == "VkBar"
    ));
    assert!(matches!(
        trans_error("<registry><types><type category=\"handle\" parent=\"VkNone\"><name>VkH</name></type></types></registry>"),
        TransError::TypeNotFound(n) if n == "VkNone"
    ));
    assert!(matches!(
        trans_error("<registry><types><type category=\"struct\" name=\"VkFoo\" requires=\"VkNo\"/></types></registry>"),
        TransError::TypeNotFound(n) if n == "VkNo"
    ));
    assert!(matches!(
        trans_error("<registry><commands><command><proto><type>VkNo</type><name>vkDo</name></proto></command></commands></registry>"),
        TransError::TypeNotFound(n) if n == "VkNo"
    ));
    assert!(matches!(
        trans_error("<registry><types><type category=\"struct\" name=\"VkA\" alias=\"VkGone\"/><type category=\"struct\" name=\"VkFoo\"><member><type>VkA</type><name>x</name></member></type></types></registry>"),
        TransError::TypeNotFound(n) if n == "VkA"
    ));
}

#[test]
fn types_may_refer_to_types_declared_later() {
    let v = link("<registry><types><type category=\"struct\" name=\"VkA\"><member><type>VkB</type>* <name>b</name></member></type><type category=\"struct\" name=\"VkB\"><member><type>VkA</type>* <name>a</name></member></type></types></registry>");
    assert!(matches!(&v.types.items[0].body, TypeDetails::Struct(d) if d.members[0].decor_type.handle == TypeHandle(2)));
    assert!(matches!(&v.types.items[1].body, TypeDetails::Struct(d) if d.members[0].decor_type.handle == TypeHandle(1)));
}

#[test]
fn a_record_may_not_hold_itself_by_value() {
    assert!(matches!(
        trans_error("<registry><types><type category=\"struct\" name=\"VkA\"><member><type>VkA</type> <name>a</name></member></type></types></registry>"),
        TransError::BadType
    ));
    assert!(matches!(
        trans_error("<registry><types><type category=\"struct\" name=\"VkA\"><member><type>VkB</type> <name>b</name></member></type><type category=\"union\" name=\"VkB\"><member><type>int</type> <name>i</name></member><member>const <type>VkC</type> <name>c</name>[2]</member></type><type category=\"struct\" name=\"VkC\"><member><type>VkA</type> <name>a</name></member></type></types></registry>"),
        TransError::BadType
    ));
    let v = link("<registry><types><type category=\"struct\" name=\"VkA\"><member><type>VkB</type> <name>b</name></member><member><type>VkA</type>* <name>next</name></member></type><type category=\"struct\" name=\"VkB\"><member><type>VkC</type> <name>c</name></member></type><type category=\"struct\" name=\"VkC\"><member><type>int</type> <name>x</name></member><member><type>VkA</type>* const <name>a</name></member></type></types></registry>");
    let rank = gen_vulkan::trans::order::rank_types(&v.types.items).unwrap();
    assert_eq!(rank, vec![3, 2, 1, 0]);
    assert!(gen_vulkan::trans::order::rank_types(&Vec::new()).unwrap().is_empty());
}

#[test]
fn duplicate_names_are_refused() {
    assert!(matches!(
        trans_error("<registry><types><type category=\"enum\" name=\"VkA\"/><type category=\"struct\" name=\"VkA\"/></types></registry>"),
        TransError::DuplicateName(n) if n == "VkA"
    ));
    assert!(matches!(
        trans_error("<registry><types><type category=\"enum\" name=\"VkA\"/><type category=\"struct\" name=\"A\"/></types></registry>"),
        TransError::DuplicateName(n) if n == "A"
    ));
    assert!(matches!(
        trans_error("<registry><types><type name=\"int\"/><type name=\"int\"/></types></registry>"),
        TransError::DuplicateName(n) if n == "int"
    ));
    let v = link("<registry><types><type name=\"DWORD\"/><type name=\"uint32_t\"/><type category=\"enum\" name=\"VkA\" api=\"vulkansc\"/><type category=\"enum\" name=\"VkA\"/></types></registry>");
    assert_eq!(v.types.items.len(), 3);
    assert_eq!(v.types.items[0].head.output_name, "u32");
    assert_eq!(v.types.items[1].head.output_name, "u32");
}

#[test]
fn output_names_of_declared_types_are_distinct() {
    let v = link(SAMPLE);
    let named: Vec<&str> = v
        .types
        .items
        .iter()
        .filter(|t| !matches!(t.body, TypeDetails::Imported(_)))
        .map(|t| t.head.output_name.as_str())
        .collect();
    for (i, a) in named.iter().enumerate() {
        for (j, b) in named.iter().enumerate() {
            if i != j {
                assert_ne!(a, b);
            }
        }
    }
}

#[test]
fn bad_declarations_are_bad_types() {
    assert!(matches!(
        trans_error("<registry><types><type category=\"struct\" name=\"VkA\"><member><name>x</name></member></type></types></registry>"),
        TransError::BadType
    ));
    assert!(matches!(
        trans_error("<registry><types><type category=\"struct\" name=\"VkA\"><member><type>int</type></member></type></types></registry>"),
        TransError::BadType
    ));
    assert!(matches!(
        trans_error("<registry><types><type category=\"bitmask\"><name>VkM</name></type></types></registry>"),
        TransError::BadType
    ));
    assert!(matches!(
        trans_error("<registry><types><type category=\"enum\" name=\"VkE\"/><type category=\"struct\" name=\"VkA\" structextends=\"VkE\"/></types></registry>"),
        TransError::BadType
    ));
    assert!(matches!(
        trans_error("<registry><types><type category=\"struct\" name=\"VkA\" structextends=\"int\"/></types></registry>"),
        TransError::BadType
    ));
    assert!(matches!(
        trans_error("<registry><enums name=\"VkE\" type=\"enum\"><enum value=\"x\" name=\"VK_A\"/></enums></registry>"),
        TransError::BadType
    ));
    assert!(matches!(
        trans_error("<registry><enums name=\"VkE\" type=\"bitmask\"><enum bitpos=\"64\" name=\"VK_A\"/></enums></registry>"),
        TransError::BadType
    ));
    assert!(matches!(
        trans_error("<registry><extensions><extension name=\"VK_a\" number=\"x\" supported=\"vulkan\"/></extensions></registry>"),
        TransError::BadType
    ));
    assert!(matches!(
        trans_error("<registry><feature api=\"vulkan\" name=\"VK_V\" number=\"1.0\"><require><enum offset=\"1\" extends=\"VkE\" name=\"VK_A\"/></require></feature></registry>"),
        TransError::BadType
    ));
    assert!(matches!(
        trans_error("<registry><extensions><extension name=\"VK_a\" number=\"0\" supported=\"vulkan\"><require><enum offset=\"1\" extends=\"VkE\" name=\"VK_A\"/></require></extension></extensions></registry>"),
        TransError::BadType
    ));
}

#[test]
fn declarations_from_mixed_content() {
    let d = decl(vec![
        item(GenericItemKind::Text, "const "),
        item(GenericItemKind::Type, "char"),
        item(GenericItemKind::Text, "* "),
        item(GenericItemKind::Name, "name"),
    ]);
    assert_eq!(d.base, "char");
    assert_eq!(d.name, "name");
    assert_eq!(d.decors, vec![Decor::Const, Decor::ConstPtr]);
    assert_eq!(d.array, None);
    let d = decl(vec![
        item(GenericItemKind::Type, "T"),
        item(GenericItemKind::Text, "** const"),
        item(GenericItemKind::Name, "x"),
        item(GenericItemKind::Text, "[3][4]"),
        item(GenericItemKind::Comment, "const *"),
    ]);
    assert_eq!(d.decors, vec![Decor::MutPtr, Decor::MutPtr, Decor::Const]);
    assert_eq!(d.array.as_deref(), Some("3"));
    let d = decl(vec![
        item(GenericItemKind::Text, "constant struct const_ xconst const"),
        item(GenericItemKind::Type, "T"),
        item(GenericItemKind::Text, "*"),
        item(GenericItemKind::Name, "x"),
        item(GenericItemKind::Text, "["),
        item(GenericItemKind::Enum, "VK_N"),
        item(GenericItemKind::Text, "]"),
    ]);
    assert_eq!(d.decors, vec![Decor::Const, Decor::ConstPtr]);
    assert_eq!(d.array.as_deref(), Some("VK_N"));
    let d = decl(vec![
        item(GenericItemKind::Type, "T"),
        item(GenericItemKind::Name, "x"),
        item(GenericItemKind::Text, ":8"),
        item(GenericItemKind::Text, "[]"),
        item(GenericItemKind::Text, "[2"),
    ]);
    assert!(d.decors.is_empty());
    assert_eq!(d.array, None);
    assert!(matches!(Decl::from_items(&Vec::new()), Err(TransError::BadType)));
}

#[test]
fn lookup_helpers() {
    let names = vec!["a".to_string(), "b".to_string(), "a".to_string()];
    assert_eq!(find(&names, "a"), Some(0));
    assert_eq!(find(&names, "b"), Some(1));
    assert_eq!(find(&names, "c"), None);
    assert!(api_ok(&None));
    assert!(api_ok(&Some(vec!["vulkansc".to_string(), "vulkan".to_string()])));
    assert!(!api_ok(&Some(vec!["vulkansc".to_string()])));
    assert!(api_text_ok(&None));
    assert!(api_text_ok(&Some("vulkan,vulkansc".to_string())));
    assert!(!api_text_ok(&Some("vulkansc".to_string())));
    let mut map: NameMap<Deprecation> = NameMap::new();
    map.push("x".to_string(), Deprecation::True);
    map.push("y".to_string(), Deprecation::False);
    map.push("x".to_string(), Deprecation::False);
    assert_eq!(map.names, vec!["x".to_string(), "y".to_string(), "x".to_string()]);
    assert_eq!(map.values, vec![Deprecation::True, Deprecation::False, Deprecation::False]);
    assert_eq!(map.index_of("x"), Some(0));
    assert_eq!(map.index_of("y"), Some(1));
    assert_eq!(map.index_of("z"), None);
}

#[test]
fn linking_a_parsed_registry() {
    let mut reader = Reader::new(read_tokens(b"<registry><types><type category=\"enum\" name=\"VkA\"/></types></registry>"));
    let registry = Vulkan::create_registry(&mut reader).ok().unwrap();
    let v = Vulkan::try_from(registry).unwrap();
    assert_eq!(v.types.items.len(), 1);
    assert_eq!(v.types.enum_types, vec![TypeHandle(1)]);
}

#[test]
fn empty_input_is_an_empty_registry() {
    assert!(matches!(
        Vulkan::from_xml(b""),
        Err(Error::Parse(pos, ParseError::EmptyRegistry)) if pos.row == 0 && pos.column == 0
    ));
    assert!(matches!(Vulkan::from_tokens(Vec::new()), Err(Error::Parse(_, ParseError::EmptyRegistry))));
}

#[test]
fn parse_errors_come_with_their_place() {
    match Vulkan::from_xml(b"<registry>\n<types>\n  <bogus/>\n</types>\n</registry>") {
        Err(Error::Parse(pos, ParseError::BadChild(parent, child))) => {
            assert_eq!(parent, "types");
            assert_eq!(child, "bogus");
            assert_eq!((pos.row, pos.column), (2, 2));
        }
        _ => panic!("expected a parse error"),
    }
    assert!(matches!(Vulkan::from_xml(b"<registry>"), Err(Error::Parse(_, ParseError::XmlRead(_)))));
    assert!(matches!(Vulkan::from_xml(b"   "), Err(Error::Parse(_, ParseError::XmlRead(_)))));
}
