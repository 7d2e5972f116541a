use gen_vulkan::cmd::Settings;
use gen_vulkan::emit::ident::ident;
use gen_vulkan::emit::ident::ident_shape;
use gen_vulkan::emit::ident::keyword;
use gen_vulkan::emit::ident::reserved;
use gen_vulkan::emit::enums::signed;
use gen_vulkan::emit::EmitSettings;
use gen_vulkan::emit::SourceFile;
use gen_vulkan::error::EmitError;
use gen_vulkan::error::Error;
use gen_vulkan::error::ParseError;
use gen_vulkan::repr::Decor;
use gen_vulkan::repr::DecorType;
use gen_vulkan::repr::FeatureHandle;
use gen_vulkan::repr::ImportedDetails;
use gen_vulkan::repr::Member;
use gen_vulkan::repr::StructDetails;
use gen_vulkan::repr::Type;
use gen_vulkan::repr::TypeCommon;
use gen_vulkan::repr::TypeDetails;
use gen_vulkan::repr::TypeHandle;
use gen_vulkan::repr::TypeTable;
use gen_vulkan::repr::Vulkan;
use gen_vulkan::run;

fn link(xml: &str) -> Vulkan {
    match Vulkan::from_xml(xml.as_bytes()) {
        Ok(v) => v,
        Err(e) => panic!("{}", e.message()),
    }
}

fn emit(xml: &str) -> Vec<SourceFile> {
    match link(xml).emit(&EmitSettings::new()) {
        Ok(files) => files,
        Err(e) => panic!("{}", e.message()),
    }
}

fn module(files: &[SourceFile], name: &str) -> String {
    match files.iter().find(|f| f.name == name) {
        Some(f) => f.text.clone(),
        None => panic!("no module {name}"),
    }
}

fn count(text: &str, piece: &str) -> usize {
    text.matches(piece).count()
}

fn one_struct(members: &str) -> String {
    format!(
        "<registry><types><type category=\"struct\" name=\"VkFoo\">{members}</type></types></registry>"
    )
}

fn imported(name: &str, output: &str) -> Type {
    Type {
        head: TypeCommon {
            standard_name: name.to_string(),
            output_name: output.to_string(),
            standard_aliases: Vec::new(),
            deprecated: None,
            requires: None,
            feature: None,
            later_features: Vec::new(),
        },
        body: TypeDetails::Imported(ImportedDetails {}),
    }
}

fn structure(name: &str, output: &str, members: Vec<Member>, feature: Option<FeatureHandle>) -> Type {
    Type {
        head: TypeCommon {
            standard_name: name.to_string(),
            output_name: output.to_string(),
            standard_aliases: Vec::new(),
            deprecated: None,
            requires: None,
            feature,
            later_features: Vec::new(),
        },
        body: TypeDetails::Struct(StructDetails { members, extends: Vec::new(), returned_only: false }),
    }
}

fn member(name: &str, handle: usize, decors: Vec<Decor>) -> Member {
    Member { name: name.to_string(), decor_type: DecorType { handle: TypeHandle(handle), decors, array: None } }
}

fn registry_of(types: Vec<Type>, structs: Vec<usize>) -> Vulkan {
    Vulkan {
        types: TypeTable {
            items: types,
            struct_types: structs.into_iter().map(TypeHandle).collect(),
            union_types: Vec::new(),
            enum_types: Vec::new(),
            bitmask_types: Vec::new(),
            result_type: None,
        },
        enums: Vec::new(),
        commands: Vec::new(),
        features: Vec::new(),
        warnings: Vec::new(),
    }
}

#[test]
fn single_struct() {
    let files = emit(
        "<registry><types><type category=\"struct\" name=\"VkFoo\"><member><type>uint32_t</type><name>x</name></member></type></types></registry>",
    );
    let names: Vec<&str> = files.iter().map(|f| f.name.as_str()).collect();
    assert_eq!(names, vec!["mod", "structs"]);
    assert_eq!(module(&files, "mod"), "mod structs;\npub use structs::*;\n");
    assert_eq!(
        module(&files, "structs"),
        "use super::*;\nuse core::ffi::*;\nuse core::ptr::*;\n\n\
         #[repr(C)]\npub struct Foo {\n    pub x: u32,\n}\n\n\
         impl Default for Foo {\n    fn default() -> Self {\n        Self {\n            x: 0,\n        }\n    }\n}\n\n"
    );
}

#[test]
fn pointer_decorator() {
    let files = emit(&one_struct("<member>const <type>char</type>* <name>name</name></member>"));
    let text = module(&files, "structs");
    assert!(text.contains("    pub name: *const c_char,\n"));
    assert!(text.contains("            name: null(),\n"));
}

#[test]
fn decorators_wrap_from_the_inside_out() {
    let files = emit(&one_struct(
        "<member>const <type>char</type>** <name>a</name></member>\
         <member><type>void</type>* <name>b</name></member>\
         <member>const <type>char</type>* const* <name>c</name></member>\
         <member><type>float</type> <name>d</name>[4]</member>\
         <member><type>uint8_t</type> <name>e</name>[<enum>VK_UUID_SIZE</enum>]</member>\
         <member><type>char</type>* <name>f</name>[2]</member>\
         <member><type>double</type> <name>g</name></member>\
         <member><type>VkFoo</type>* <name>type</name></member>",
    ));
    let text = module(&files, "structs");
    assert!(text.contains("    pub a: *mut *const c_char,\n"));
    assert!(text.contains("            a: null_mut(),\n"));
    assert!(text.contains("    pub b: *mut c_void,\n"));
    assert!(text.contains("            b: null_mut(),\n"));
    assert!(text.contains("    pub c: *const *const c_char,\n"));
    assert!(text.contains("            c: null(),\n"));
    assert!(text.contains("    pub d: [f32; 4 as usize],\n"));
    assert!(text.contains("            d: [0.0; 4 as usize],\n"));
    assert!(text.contains("    pub e: [u8; UUID_SIZE as usize],\n"));
    assert!(text.contains("            e: [0; UUID_SIZE as usize],\n"));
    assert!(text.contains("    pub f: [*mut c_char; 2 as usize],\n"));
    assert!(text.contains("            f: [null_mut(); 2 as usize],\n"));
    assert!(text.contains("    pub g: f64,\n"));
    assert!(text.contains("            g: 0.0,\n"));
    assert!(text.contains("    pub r#type: *mut Foo,\n"));
    assert!(text.contains("            r#type: null_mut(),\n"));
}

#[test]
fn decorator_chain_of_three() {
    let v = registry_of(
        vec![
            imported("T", "T"),
            structure("VkS", "S", vec![member("x", 1, vec![Decor::Const, Decor::ConstPtr, Decor::MutPtr])], None),
        ],
        vec![2],
    );
    let t = v.type_text(&DecorType {
        handle: TypeHandle(1),
        decors: vec![Decor::Const, Decor::ConstPtr, Decor::MutPtr],
        array: None,
    });
    assert_eq!(t.as_deref(), Some("*mut *const T"));
    let files = v.render().unwrap();
    assert!(module(&files, "structs").contains("    pub x: *mut *const T,\n"));
    assert!(module(&files, "structs").contains("            x: null_mut(),\n"));
}

#[test]
fn structure_type_default() {
    let files = emit(
        "<registry><types><type name=\"VkStructureType\" category=\"enum\"/>\
         <type category=\"struct\" name=\"VkApplicationInfo\"><member><type>VkStructureType</type> <name>sType</name></member><member>const <type>void</type>* <name>pNext</name></member></type>\
         </types></registry>",
    );
    let text = module(&files, "structs");
    assert!(text.contains("pub struct ApplicationInfo {\n    pub sType: StructureType,\n    pub pNext: *const c_void,\n}\n"));
    assert!(text.contains("            sType: StructureType::APPLICATION_INFO,\n"));
    assert!(text.contains("            pNext: null(),\n"));
}

#[test]
fn other_members_take_the_default_of_their_type() {
    let files = emit(
        "<registry><types><type category=\"enum\" name=\"VkKind\"/>\
         <type category=\"struct\" name=\"VkFoo\"><member><type>VkKind</type> <name>kind</name></member><member><type>int</type> <name>n</name></member><member><type>size_t</type> <name>s</name></member></type>\
         </types></registry>",
    );
    let text = module(&files, "structs");
    assert!(text.contains("    pub kind: Kind,\n"));
    assert!(text.contains("            kind: Default::default(),\n"));
    assert!(text.contains("    pub n: c_int,\n"));
    assert!(text.contains("            n: 0,\n"));
    assert!(text.contains("            s: 0,\n"));
}

#[test]
fn imported_type_substitution() {
    let files = emit(&one_struct("<member><type>HWND</type> <name>hwnd</name></member><member><type>HINSTANCE</type> <name>hinstance</name></member>"));
    let text = module(&files, "structs");
    assert!(text.contains("    pub hwnd: windows::Win32::Foundation::HWND,\n"));
    assert!(text.contains("    pub hinstance: windows::Win32::Foundation::HINSTANCE,\n"));
    for f in &files {
        assert!(!f.text.contains("struct HWND"));
        assert!(!f.text.contains("type HWND"));
        assert!(!f.text.contains("struct HINSTANCE"));
    }
    let declared = emit(
        "<registry><types><type requires=\"windows.h\" name=\"HWND\"/><type name=\"windows.h\" category=\"include\"/>\
         <type category=\"struct\" name=\"VkFoo\"><member><type>HWND</type> <name>hwnd</name></member></type></types></registry>",
    );
    assert!(module(&declared, "structs").contains("    pub hwnd: windows::Win32::Foundation::HWND,\n"));
    assert_eq!(count(&module(&declared, "structs"), "HWND"), 1);
}

#[test]
fn feature_gate() {
    let files = emit(
        "<registry><types><type category=\"struct\" name=\"VkFoo\"><member><type>int</type> <name>x</name></member></type>\
         <type category=\"struct\" name=\"VkBar\"><member><type>int</type> <name>y</name></member></type></types>\
         <extensions><extension name=\"VK_KHR_portability_enumeration\" number=\"395\" supported=\"vulkan\"><require><type name=\"VkFoo\"/></require><require><type name=\"VkFoo\"/></require></extension>\
         <extension name=\"VK_KHR_other\" number=\"396\" supported=\"vulkan\"><require><type name=\"VkOther\"/></require></extension></extensions></registry>",
    );
    let text = module(&files, "structs");
    assert!(text.contains("#[cfg(feature = \"KHR_portability_enumeration\")]\n#[repr(C)]\npub struct Foo {\n"));
    assert!(text.contains("#[cfg(feature = \"KHR_portability_enumeration\")]\nimpl Default for Foo {\n"));
    assert_eq!(count(&text, "#[cfg(feature = \"KHR_portability_enumeration\")]\n#[repr(C)]"), 1);
    assert_eq!(count(&text, "#[cfg(feature = \"KHR_portability_enumeration\")]"), 2);
    assert_eq!(count(&text, "KHR_other"), 0);
    assert!(text.contains("\n\n#[repr(C)]\npub struct Bar {\n"));
    assert!(text.contains("\n\nimpl Default for Bar {\n"));
}

#[test]
fn item_of_several_features_is_gated_by_any_of_them() {
    let files = emit(
        "<registry><types><type category=\"struct\" name=\"VkFoo\"/><type category=\"enum\" name=\"VkKind\"/></types>\
         <enums name=\"VkKind\" type=\"enum\"><enum value=\"1\" name=\"VK_KIND_A\"/></enums>\
         <commands><command><proto><type>void</type> <name>vkDo</name></proto></command></commands>\
         <feature api=\"vulkan\" name=\"VK_VERSION_1_0\" number=\"1.0\"><require><type name=\"VkFoo\"/><command name=\"vkDo\"/></require></feature>\
         <extensions><extension name=\"VK_KHR_b\" number=\"9\" supported=\"vulkan\"><require><type name=\"VkFoo\"/><type name=\"VkKind\"/><command name=\"vkDo\"/></require></extension>\
         <extension name=\"VK_KHR_a\" number=\"3\" supported=\"vulkan\"><require><type name=\"VkFoo\"/><type name=\"VkKind\"/></require><require><type name=\"VkFoo\"/></require></extension></extensions></registry>",
    );
    let structs = module(&files, "structs");
    let gate = "#[cfg(any(feature = \"VERSION_1_0\", feature = \"KHR_a\", feature = \"KHR_b\"))]\n";
    assert_eq!(count(&structs, &format!("{gate}#[repr(C)]\npub struct Foo {{")), 1);
    assert_eq!(count(&structs, &format!("{gate}impl Default for Foo {{")), 1);
    assert_eq!(count(&structs, "#[cfg("), 2);
    let enums = module(&files, "enums");
    assert!(enums.contains("#[cfg(any(feature = \"KHR_a\", feature = \"KHR_b\"))]\n#[repr(transparent)]"));
    let commands = module(&files, "commands");
    assert!(commands.contains("    #[cfg(any(feature = \"VERSION_1_0\", feature = \"KHR_b\"))]\n    #[link_name = \"vkDo\"]\n"));
}

#[test]
fn every_gated_item_has_one_gate() {
    let files = emit(
        "<registry><types><type name=\"VkResult\" category=\"enum\"/><type category=\"struct\" name=\"VkA\"/><type category=\"union\" name=\"VkU\"><member><type>int</type><name>i</name></member><member><type>float</type><name>f</name></member></type></types>\
         <enums name=\"VkResult\" type=\"enum\"><enum value=\"0\" name=\"VK_SUCCESS\"/></enums>\
         <commands><command><proto><type>VkResult</type> <name>vkDo</name></proto><param><type>VkA</type>* <name>a</name></param></command></commands>\
         <feature api=\"vulkan\" name=\"VK_VERSION_1_0\" number=\"1.0\"><require><type name=\"VkResult\"/><type name=\"VkA\"/><type name=\"VkU\"/><command name=\"vkDo\"/></require></feature>\
         <extensions><extension name=\"VK_KHR_x\" number=\"2\" supported=\"vulkan\"><require><enum offset=\"0\" dir=\"-\" extends=\"VkResult\" name=\"VK_ERROR_X\"/></require></extension></extensions></registry>",
    );
    let gate = "#[cfg(feature = \"VERSION_1_0\")]\n";
    let structs = module(&files, "structs");
    assert_eq!(count(&structs, &format!("{gate}#[repr(C)]\npub struct A {{")), 1);
    assert_eq!(count(&structs, gate), 2);
    let unions = module(&files, "unions");
    assert_eq!(count(&unions, &format!("{gate}#[repr(C)]\npub union U {{")), 1);
    assert!(unions.contains("        Self {\n            i: 0,\n        }\n"));
    let enums = module(&files, "enums");
    assert_eq!(count(&enums, &format!("{gate}#[repr(transparent)]")), 1);
    assert_eq!(count(&enums, "    #[cfg(feature = \"KHR_x\")]\n    pub const ERROR_X: Self = Self(-1000001000);\n"), 1);
    let commands = module(&files, "commands");
    assert_eq!(count(&commands, "    #[cfg(feature = \"VERSION_1_0\")]\n    #[link_name = \"vkDo\"]\n    pub fn Do(a: *mut A) -> Result;\n"), 1);
    let result = module(&files, "result");
    assert!(result.contains("pub const SUCCESS_CODES: &[Result] = &[\n    Result::SUCCESS,\n];\n"));
    assert!(result.contains("pub const ERROR_CODES: &[Result] = &[\n    #[cfg(feature = \"KHR_x\")]\n    Result::ERROR_X,\n];\n"));
}

#[test]
fn registry_with_only_a_comment_has_no_module() {
    let files = emit("<registry><comment>nothing here</comment></registry>");
    assert!(files.is_empty());
    let files = emit("<registry/>");
    assert!(files.is_empty());
}

#[test]
fn root_lists_the_modules_in_order() {
    let files = emit(
        "<registry><types><type category=\"union\" name=\"VkU\"><member><type>int</type><name>i</name></member></type><type category=\"struct\" name=\"VkS\"/><type category=\"enum\" name=\"VkResult\"/></types>\
         <commands><command><proto><type>void</type> <name>vkDo</name></proto></command></commands></registry>",
    );
    let names: Vec<&str> = files.iter().map(|f| f.name.as_str()).collect();
    assert_eq!(names, vec!["mod", "commands", "enums", "result", "structs", "unions"]);
    assert_eq!(
        module(&files, "mod"),
        "mod commands;\npub use commands::*;\nmod enums;\npub use enums::*;\nmod result;\npub use result::*;\nmod structs;\npub use structs::*;\nmod unions;\npub use unions::*;\n"
    );
    assert_eq!(
        module(&files, "commands"),
        "use super::*;\nuse core::ffi::*;\n\nextern \"system\" {\n    #[link_name = \"vkDo\"]\n    pub fn Do();\n}\n"
    );
    let v = link("<registry><types><type category=\"enum\" name=\"VkKind\"/></types></registry>");
    assert_eq!(v.root_text(), "mod enums;\npub use enums::*;\n");
}

#[test]
fn enumerations_flags_and_constants() {
    let files = emit(
        "<registry><types><type category=\"enum\" name=\"VkKind\"/><type category=\"enum\" name=\"VkBits\"/><type category=\"enum\" name=\"VkWide\"/></types>\
         <enums name=\"API Constants\" type=\"constants\"><enum type=\"uint32_t\" value=\"256\" name=\"VK_MAX_NAME\"/><enum type=\"uint32_t\" value=\"(~0U)\" name=\"VK_ALL\"/><enum type=\"float\" value=\"1000.0F\" name=\"VK_LOD\"/><enum type=\"uint64_t\" value=\"0x10\" name=\"VK_WHOLE\"/><enum name=\"VK_OLD\" alias=\"VK_MAX_NAME\"/></enums>\
         <enums name=\"VkKind\" type=\"enum\"><enum value=\"1\" name=\"VK_KIND_A\"/><enum value=\"0\" name=\"VK_KIND_NONE\"/><enum value=\"-3\" name=\"VK_KIND_B\"/><enum name=\"VK_KIND_C\" alias=\"VK_KIND_B\"/></enums>\
         <enums name=\"VkBits\" type=\"bitmask\"><enum bitpos=\"4\" name=\"VK_BIT\"/></enums>\
         <enums name=\"VkWide\" type=\"bitmask\" bitwidth=\"64\"><enum bitpos=\"40\" name=\"VK_WIDE\"/></enums>\
         </registry>",
    );
    let text = module(&files, "enums");
    assert_eq!(
        text,
        "use super::*;\n\n\
         pub const MAX_NAME: u32 = 256;\npub const WHOLE: u64 = 16;\n\n\
         #[repr(transparent)]\n#[derive(Clone, Copy, PartialEq, Eq)]\npub struct Kind(pub i32);\n\n\
         impl Kind {\n    pub const KIND_A: Self = Self(1);\n    pub const KIND_NONE: Self = Self(0);\n    pub const KIND_B: Self = Self(-3);\n    pub const KIND_C: Self = Self::KIND_B;\n}\n\n\
         impl Default for Kind {\n    fn default() -> Self {\n        Self::KIND_NONE\n    }\n}\n\n\
         #[repr(transparent)]\n#[derive(Clone, Copy, PartialEq, Eq)]\npub struct Bits(pub u32);\n\n\
         impl Bits {\n    pub const BIT: Self = Self(1 << 4);\n}\n\n\
         #[repr(transparent)]\n#[derive(Clone, Copy, PartialEq, Eq)]\npub struct Wide(pub u64);\n\n\
         impl Wide {\n    pub const WIDE: Self = Self(1 << 40);\n}\n\n"
    );
    assert_eq!(signed(0), "0");
    assert_eq!(signed(-1), "-1");
    assert_eq!(signed(i64::MIN), "-9223372036854775808");
    assert_eq!(signed(i64::MAX), "9223372036854775807");
}

#[test]
fn result_module() {
    let files = emit(
        "<registry><types><type category=\"enum\" name=\"VkResult\"/></types>\
         <enums name=\"VkResult\" type=\"enum\"><enum value=\"0\" name=\"VK_SUCCESS\"/><enum value=\"5\" name=\"VK_INCOMPLETE\"/><enum value=\"-1\" name=\"VK_ERROR_A\"/><enum name=\"VK_OK\" alias=\"VK_SUCCESS\"/></enums></registry>",
    );
    assert_eq!(
        module(&files, "result"),
        "use super::*;\n\nimpl Result {\n    pub const fn is_success(self) -> bool {\n        self.0 >= 0\n    }\n\n    pub const fn is_error(self) -> bool {\n        self.0 < 0\n    }\n}\n\n\
         pub const SUCCESS_CODES: &[Result] = &[\n    Result::SUCCESS,\n    Result::INCOMPLETE,\n];\n\n\
         pub const ERROR_CODES: &[Result] = &[\n    Result::ERROR_A,\n];\n"
    );
    let v = link("<registry><types><type category=\"struct\" name=\"VkS\"/></types></registry>");
    assert!(matches!(v.result_text(), Ok(None)));
}

#[test]
fn two_runs_give_the_same_bytes() {
    let xml = "<registry><types><type name=\"VkResult\" category=\"enum\"/><type category=\"struct\" name=\"VkA\"><member>const <type>char</type>* <name>p</name></member></type></types>\
               <enums name=\"VkResult\" type=\"enum\"><enum value=\"0\" name=\"VK_SUCCESS\"/></enums>\
               <commands><command><proto><type>VkResult</type> <name>vkDo</name></proto><param><type>VkA</type>* <name>a</name></param></command></commands></registry>";
    let a = emit(xml);
    let b = emit(xml);
    assert_eq!(a.len(), b.len());
    assert!(a.len() == 5);
    for (x, y) in a.iter().zip(b.iter()) {
        assert_eq!(x.name, y.name);
        assert_eq!(x.text.as_bytes(), y.text.as_bytes());
    }
    let settings = Settings::new();
    let c = run(&settings, xml.as_bytes()).unwrap();
    let d = run(&settings, xml.as_bytes()).unwrap();
    for ((x, y), z) in c.iter().zip(d.iter()).zip(a.iter()) {
        assert_eq!(x.text, y.text);
        assert_eq!(x.text, z.text);
    }
    for f in &a {
        assert!(f.text.ends_with('\n'));
    }
}

#[test]
fn run_hands_on_the_errors_of_every_stage() {
    let settings = Settings::new();
    assert!(matches!(run(&settings, b""), Err(Error::Parse(_, ParseError::EmptyRegistry))));
    assert!(matches!(run(&settings, b"<registry><x/></registry>"), Err(Error::Parse(_, ParseError::BadChild(_, _)))));
    assert!(matches!(
        run(&settings, b"<registry><types><type category=\"struct\" name=\"VkA\" requires=\"VkB\"/></types></registry>"),
        Err(Error::Trans(_))
    ));
    assert!(matches!(
        run(&settings, b"<registry><types><type category=\"struct\" name=\"VkA\"><member><type>int</type><name>self</name></member></type></types></registry>"),
        Err(Error::Emit(EmitError::BadStructMember(s, m))) if s == "VkA" && m == "self"
    ));
    assert!(run(&settings, b"<registry/>").unwrap().is_empty());
}

#[test]
fn bad_members_are_named() {
    let v = registry_of(vec![imported("int", "c_int"), structure("VkS", "S", vec![member("a b", 1, Vec::new())], None)], vec![2]);
    assert!(matches!(v.render(), Err(EmitError::BadStructMember(s, m)) if s == "VkS" && m == "a b"));
    let v = registry_of(vec![structure("VkS", "S", vec![member("x", 7, Vec::new())], None)], vec![1]);
    assert!(matches!(v.render(), Err(EmitError::BadStructMember(s, m)) if s == "VkS" && m == "x"));
    let v = registry_of(vec![structure("VkS", "1S", Vec::new(), None)], vec![1]);
    assert!(matches!(v.render(), Err(EmitError::BadStructMember(s, m)) if s == "VkS" && m == "1S"));
    let v = registry_of(vec![structure("VkS", "S", Vec::new(), Some(FeatureHandle(3)))], vec![1, 9]);
    let files = v.render().unwrap();
    assert!(module(&files, "structs").contains("\n\n#[repr(C)]\npub struct S {\n}\n"));
}

#[test]
fn text_that_is_no_source_is_a_format_error() {
    let v = registry_of(
        vec![imported("odd", "not a type!"), structure("VkS", "S", vec![member("x", 1, Vec::new())], None)],
        vec![2],
    );
    let rendered = v.render().unwrap();
    assert!(module(&rendered, "structs").contains("    pub x: not a type!,\n"));
    match v.emit(&EmitSettings::new()) {
        Err(Error::Emit(EmitError::Format(e))) => {
            let words = Error::Emit(EmitError::Format(e)).message();
            assert!(!words.is_empty());
        }
        _ => panic!("expected a format error"),
    }
}

#[test]
fn identifiers() {
    assert_eq!(ident("x").as_deref(), Some("x"));
    assert_eq!(ident("_x1").as_deref(), Some("_x1"));
    assert_eq!(ident("type").as_deref(), Some("r#type"));
    assert_eq!(ident("match").as_deref(), Some("r#match"));
    assert_eq!(ident("self"), None);
    assert_eq!(ident("Self"), None);
    assert_eq!(ident("super"), None);
    assert_eq!(ident("crate"), None);
    assert_eq!(ident(""), None);
    assert_eq!(ident("_"), None);
    assert_eq!(ident("1x"), None);
    assert_eq!(ident("a-b"), None);
    assert_eq!(ident("a b"), None);
    assert_eq!(ident("\u{e9}"), None);
    assert!(ident_shape("abc"));
    assert!(!ident_shape("a.b"));
    assert!(keyword("fn"));
    assert!(!keyword("fnn"));
    assert!(reserved("self"));
    assert!(!reserved("selfish"));
    for k in [
        "as", "async", "await", "break", "const", "continue", "dyn", "else", "enum", "extern", "false", "fn",
        "for", "if", "impl", "in", "let", "loop", "match", "mod", "move", "mut", "pub", "ref", "return",
        "static", "struct", "trait", "true", "type", "unsafe", "use", "where", "while",
    ] {
        assert!(keyword(k));
        assert_eq!(ident(k), Some(format!("r#{k}")));
    }
}

#[test]
fn defaults_and_feature_lines() {
    let mut v = link(
        "<registry><types><type category=\"struct\" name=\"VkA\"/></types>\
         <feature api=\"vulkan\" name=\"VK_VERSION_1_0\" number=\"1.0\"/></registry>",
    );
    assert_eq!(v.gate(Some(FeatureHandle(1)), "  "), "  #[cfg(feature = \"VERSION_1_0\")]\n");
    assert_eq!(v.gate(Some(FeatureHandle(2)), "  "), "");
    assert_eq!(v.gate(Some(FeatureHandle(0)), "  "), "");
    assert_eq!(v.gate(None, "  "), "");
    assert_eq!(v.gate_any(Some(FeatureHandle(1)), &Vec::new(), ""), "#[cfg(feature = \"VERSION_1_0\")]\n");
    assert_eq!(
        v.gate_any(Some(FeatureHandle(1)), &vec![FeatureHandle(1), FeatureHandle(4)], " "),
        " #[cfg(any(feature = \"VERSION_1_0\", feature = \"VERSION_1_0\"))]\n"
    );
    assert_eq!(v.gate_any(None, &vec![FeatureHandle(1)], ""), "");
    assert_eq!(v.gate_any(Some(FeatureHandle(2)), &vec![FeatureHandle(1)], ""), "");
    assert_eq!(v.base_name(TypeHandle(1)), Some("A"));
    assert_eq!(v.base_name(TypeHandle(2)), None);
    let t = DecorType { handle: TypeHandle(1), decors: vec![Decor::MutPtr, Decor::Const], array: None };
    assert_eq!(v.type_text(&t).as_deref(), Some("*mut A"));
    assert_eq!(v.default_text(&t, "Owner").as_deref(), Some("null_mut()"));
    let t = DecorType { handle: TypeHandle(1), decors: vec![Decor::Const], array: Some("VK_N".to_string()) };
    assert_eq!(v.type_text(&t).as_deref(), Some("[A; N as usize]"));
    assert_eq!(v.default_text(&t, "Owner").as_deref(), Some("[Default::default(); N as usize]"));
    let t = DecorType { handle: TypeHandle(5), decors: Vec::new(), array: None };
    assert_eq!(v.type_text(&t), None);
    assert_eq!(v.default_text(&t, "Owner"), None);
    v.types.items[0].head.standard_name = "VkStructureType".to_string();
    let t = DecorType { handle: TypeHandle(1), decors: Vec::new(), array: None };
    assert_eq!(v.default_text(&t, "FooBar").as_deref(), Some("A::FOO_BAR"));
}
