use gen_vulkan::attribs::Attribs;
use gen_vulkan::attribs::FromText;
use gen_vulkan::error::ParseError;
use gen_vulkan::error::TextPosition;
use gen_vulkan::events::read_tokens;
use gen_vulkan::events::Event;
use gen_vulkan::events::Token;
use gen_vulkan::parse::Command;
use gen_vulkan::parse::CommandItem;
use gen_vulkan::parse::CommandsItem;
use gen_vulkan::parse::Dir;
use gen_vulkan::parse::EnumDetails;
use gen_vulkan::parse::EnumsItem;
use gen_vulkan::parse::EnumsType;
use gen_vulkan::parse::ExtensionItem;
use gen_vulkan::parse::ExternSync;
use gen_vulkan::parse::GenericItem;
use gen_vulkan::parse::GenericItemKind;
use gen_vulkan::parse::GenericParse;
use gen_vulkan::parse::Len;
use gen_vulkan::parse::LimitType;
use gen_vulkan::parse::Parse;
use gen_vulkan::parse::Platform;
use gen_vulkan::parse::Reader;
use gen_vulkan::parse::Registry;
use gen_vulkan::parse::RegistryItem;
use gen_vulkan::parse::RequireEnumDetails;
use gen_vulkan::parse::RequireItem;
use gen_vulkan::parse::StructItem;
use gen_vulkan::parse::TypeCommon;
use gen_vulkan::parse::TypeDetails;
use gen_vulkan::parse::TypesItem;
use gen_vulkan::repr::Deprecation;
use gen_vulkan::repr::Vulkan;

fn parse(xml: &str) -> Result<Registry, ParseError> {
    let mut reader = Reader::new(read_tokens(xml.as_bytes()));
    Vulkan::create_registry(&mut reader)
}

fn parse_at(xml: &str) -> (Result<Registry, ParseError>, TextPosition) {
    let mut reader = Reader::new(read_tokens(xml.as_bytes()));
    let r = Vulkan::create_registry(&mut reader);
    (r, reader.position())
}

fn registry(xml: &str) -> Registry {
    match parse(xml) {
        Ok(r) => r,
        Err(e) => panic!("{}", e.message()),
    }
}

fn error(xml: &str) -> ParseError {
    match parse(xml) {
        Ok(_) => panic!("the document parsed"),
        Err(e) => e,
    }
}

fn pairs(list: &[(&str, &str)]) -> Attribs {
    Attribs::from_pairs(list.iter().map(|(k, v)| (k.to_string(), v.to_string())).collect())
}

fn at(row: u64, column: u64) -> TextPosition {
    TextPosition { row, column }
}

#[test]
fn tokens_end_with_the_end_of_the_document() {
    let tokens = read_tokens(b"<registry/>");
    assert!(matches!(tokens.last().unwrap().event, Event::EndDocument));
    let starts = tokens.iter().filter(|t| matches!(t.event, Event::Start(_, _))).count();
    let ends = tokens.iter().filter(|t| matches!(t.event, Event::End(_))).count();
    assert_eq!(starts, 1);
    assert_eq!(ends, 1);
}

#[test]
fn tokens_hold_names_attributes_and_text() {
    let tokens = read_tokens(b"<a x=\"1\" y=\"2\">hi</a>");
    let mut seen = false;
    for t in &tokens {
        if let Event::Start(name, attribs) = &t.event {
            assert_eq!(name, "a");
            assert_eq!(attribs, &vec![("x".to_string(), "1".to_string()), ("y".to_string(), "2".to_string())]);
            seen = true;
        }
    }
    assert!(seen);
    assert!(tokens.iter().any(|t| matches!(&t.event, Event::Text(s) if s == "hi")));
    assert!(tokens.iter().any(|t| matches!(&t.event, Event::End(s) if s == "a")));
}

#[test]
fn tokens_end_with_the_failure_of_a_broken_document() {
    let tokens = read_tokens(b"<a><b></a>");
    assert!(matches!(tokens.last().unwrap().event, Event::Failed(_)));
    let failures = tokens.iter().filter(|t| matches!(t.event, Event::Failed(_))).count();
    assert_eq!(failures, 1);
}

#[test]
fn tokens_carry_the_place_of_the_reader() {
    let tokens = read_tokens(b"<a>\n  <b/>\n</a>");
    let b = tokens.iter().find(|t| matches!(&t.event, Event::Start(n, _) if n == "b")).unwrap();
    assert_eq!(b.pos.row, 1);
    assert_eq!(b.pos.column, 2);
}

#[test]
fn reader_hands_out_tokens_in_order_and_stays_at_the_end() {
    let tokens = vec![
        Token { event: Event::Text("x".to_string()), pos: at(0, 1) },
        Token { event: Event::Misc, pos: at(2, 3) },
    ];
    let mut reader = Reader::new(tokens);
    assert_eq!(reader.position(), at(0, 0));
    assert!(matches!(reader.next(), Event::Text(s) if s == "x"));
    assert_eq!(reader.position(), at(0, 1));
    assert!(matches!(reader.next(), Event::Misc));
    assert_eq!(reader.position(), at(2, 3));
    assert!(matches!(reader.next(), Event::EndDocument));
    assert!(matches!(reader.next(), Event::EndDocument));
    assert_eq!(reader.position(), at(2, 3));
}

#[test]
fn empty_document_is_an_empty_registry() {
    let mut reader = Reader::new(vec![Token { event: Event::EndDocument, pos: at(0, 0) }]);
    assert!(matches!(Vulkan::create_registry(&mut reader), Err(ParseError::EmptyRegistry)));
    let mut reader = Reader::new(vec![
        Token { event: Event::Misc, pos: at(0, 0) },
        Token { event: Event::EndDocument, pos: at(0, 0) },
    ]);
    assert!(matches!(Vulkan::create_registry(&mut reader), Err(ParseError::EmptyRegistry)));
    let mut reader = Reader::new(Vec::new());
    assert!(matches!(Vulkan::create_registry(&mut reader), Err(ParseError::EmptyRegistry)));
}

#[test]
fn text_and_closing_tags_outside_the_root_are_errors() {
    let mut reader = Reader::new(vec![Token { event: Event::Text("x".to_string()), pos: at(0, 0) }]);
    assert!(matches!(
        Vulkan::create_registry(&mut reader),
        Err(ParseError::BadContent(e, t)) if e.is_empty() && t == "x"
    ));
    let mut reader = Reader::new(vec![Token { event: Event::End("a".to_string()), pos: at(0, 0) }]);
    assert!(matches!(Vulkan::create_registry(&mut reader), Err(ParseError::BadEnd(n)) if n == "a"));
}

#[test]
fn registry_with_a_comment() {
    let r = registry("<registry comment=\"c\"><comment>hello</comment></registry>");
    assert_eq!(r.comment.as_deref(), Some("c"));
    assert_eq!(r.items.len(), 1);
    assert!(matches!(&r.items[0], RegistryItem::Comment(c) if c.text == "hello"));
}

#[test]
fn root_must_be_the_registry() {
    assert!(matches!(error("<other/>"), ParseError::BadStart(n) if n == "other"));
}

#[test]
fn unknown_attribute_is_unread() {
    assert!(matches!(
        error("<registry foo=\"bar\"/>"),
        ParseError::UnreadAttrib(e, a, v) if e == "registry" && a == "foo" && v == "bar"
    ));
    assert!(matches!(
        error("<registry><platforms><platform name=\"a\" protect=\"b\" extra=\"1\"/></platforms></registry>"),
        ParseError::UnreadAttrib(e, a, v) if e == "platform" && a == "extra" && v == "1"
    ));
    assert!(matches!(
        error("<registry><types><type category=\"struct\" name=\"S\"><member><name x=\"1\">a</name></member></type></types></registry>"),
        ParseError::UnreadAttrib(e, a, v) if e == "name" && a == "x" && v == "1"
    ));
}

#[test]
fn every_attribute_of_a_parsed_element_is_taken() {
    let mut reader = Reader::new(read_tokens(b"<platform name=\"a\" protect=\"b\" comment=\"c\"/>"));
    let (name, attributes) = loop {
        if let Event::Start(name, attributes) = reader.next() {
            break (name, attributes);
        }
    };
    let mut attribs = Attribs::from_pairs(attributes);
    let p = match Platform::parse(&mut reader, name, &mut attribs) {
        Ok(p) => p,
        Err(e) => panic!("{}", e.message()),
    };
    assert!(attribs.is_empty());
    assert_eq!(p.name, "a");
    assert_eq!(p.protect, "b");
    assert_eq!(p.comment.as_deref(), Some("c"));
}

#[test]
fn missing_attribute_is_required() {
    assert!(matches!(
        error("<registry><platforms><platform name=\"a\"/></platforms></registry>"),
        ParseError::ReqAttrib(e, a) if e == "platform" && a == "protect"
    ));
}

#[test]
fn bad_child_names_parent_and_child() {
    assert!(matches!(
        error("<registry><bogus/></registry>"),
        ParseError::BadChild(p, c) if p == "registry" && c == "bogus"
    ));
    assert!(matches!(
        error("<registry><platforms><tag/></platforms></registry>"),
        ParseError::BadStart(c) if c == "tag"
    ));
    assert!(matches!(
        error("<registry><sync><syncaccess name=\"a\"><bogus/></syncaccess></sync></registry>"),
        ParseError::BadChild(p, c) if p == "syncaccess" && c == "bogus"
    ));
    assert!(matches!(
        error("<registry><comment><b/></comment></registry>"),
        ParseError::BadChild(p, c) if p == "comment" && c == "b"
    ));
}

#[test]
fn text_where_none_is_allowed_is_bad_content() {
    assert!(matches!(
        error("<registry>text</registry>"),
        ParseError::BadContent(e, t) if e == "registry" && t == "text"
    ));
}

#[test]
fn document_that_ends_early_is_an_error() {
    let mut reader = Reader::new(vec![
        Token { event: Event::Start("registry".to_string(), Vec::new()), pos: at(0, 0) },
        Token { event: Event::EndDocument, pos: at(0, 10) },
    ]);
    assert!(matches!(Vulkan::create_registry(&mut reader), Err(ParseError::DocEnd(e)) if e == "registry"));
    assert_eq!(reader.position(), at(0, 10));
}

#[test]
fn mismatched_closing_tag_is_a_bad_end() {
    let mut reader = Reader::new(vec![
        Token { event: Event::Start("registry".to_string(), Vec::new()), pos: at(0, 0) },
        Token { event: Event::End("types".to_string()), pos: at(0, 10) },
    ]);
    assert!(matches!(Vulkan::create_registry(&mut reader), Err(ParseError::BadEnd(e)) if e == "types"));
}

#[test]
fn broken_xml_is_a_read_error() {
    let (r, _) = parse_at("<registry><types></registry>");
    match r {
        Err(ParseError::XmlRead(e)) => {
            let words = ParseError::XmlRead(e).message();
            assert!(!words.is_empty());
        }
        _ => panic!("expected a read error"),
    }
}

#[test]
fn errors_come_with_the_place_of_the_reader() {
    let (r, pos) = parse_at("<registry>\n  <bogus/>\n</registry>");
    assert!(matches!(r, Err(ParseError::BadChild(_, _))));
    assert_eq!(pos, at(1, 2));
}

#[test]
fn first_error_in_document_order_wins() {
    assert!(matches!(
        error("<registry><bogus/><types></registry>"),
        ParseError::BadChild(p, c) if p == "registry" && c == "bogus"
    ));
}

#[test]
fn platforms_and_tags() {
    let r = registry(
        "<registry>\
         <platforms comment=\"p\"><platform name=\"xlib\" protect=\"VK_USE_PLATFORM_XLIB_KHR\" comment=\"X11\"/></platforms>\
         <tags><tag name=\"KHR\" author=\"Khronos\" contact=\"someone\"/></tags>\
         </registry>",
    );
    match &r.items[0] {
        RegistryItem::Platforms(p) => {
            assert_eq!(p.comment.as_deref(), Some("p"));
            assert_eq!(p.items[0].name, "xlib");
            assert_eq!(p.items[0].protect, "VK_USE_PLATFORM_XLIB_KHR");
            assert_eq!(p.items[0].comment.as_deref(), Some("X11"));
        }
        _ => panic!("expected platforms"),
    }
    match &r.items[1] {
        RegistryItem::Tags(t) => {
            assert_eq!(t.items[0].name, "KHR");
            assert_eq!(t.items[0].author, "Khronos");
            assert_eq!(t.items[0].contact, "someone");
            assert!(t.items[0].comment.is_none());
        }
        _ => panic!("expected tags"),
    }
}

fn types_of(r: &Registry) -> Vec<&gen_vulkan::parse::Type> {
    let mut out = Vec::new();
    for item in &r.items {
        if let RegistryItem::Types(t) = item {
            for i in &t.items {
                if let TypesItem::Type(ty) = i {
                    out.push(ty);
                }
            }
        }
    }
    out
}

#[test]
fn type_categories() {
    let r = registry(
        "<registry><types>\
         <type name=\"vk_platform\" category=\"include\">#include \"vk_platform.h\"</type>\
         <type category=\"define\">#define <name>VK_API</name> 1</type>\
         <type category=\"basetype\">typedef <type>uint32_t</type> <name>VkFlags</name>;</type>\
         <type category=\"handle\" parent=\"VkInstance\" objtypeenum=\"VK_OBJECT_TYPE_DEVICE\"><type>VK_DEFINE_HANDLE</type>(<name>VkDevice</name>)</type>\
         <type requires=\"VkBits\" category=\"bitmask\" bitvalues=\"VkBits2\">typedef <type>VkFlags</type> <name>VkMask</name>;</type>\
         <type name=\"VkKind\" category=\"enum\"/>\
         <type category=\"funcpointer\">typedef void (VKAPI_PTR *<name>PFN_vkVoid</name>)(void);</type>\
         <type category=\"struct\" name=\"VkS\" returnedonly=\"true\" allowduplicate=\"false\" structextends=\"VkA,VkB\"><member><type>int</type> <name>x</name></member><comment>c</comment></type>\
         <type category=\"union\" name=\"VkU\" returnedonly=\"false\"><member><type>int</type> <name>y</name></member></type>\
         <type requires=\"X11/Xlib.h\" name=\"Display\"/>\
         </types></registry>",
    );
    let types = types_of(&r);
    assert_eq!(types.len(), 10);
    assert_eq!(types[0].common.name, "vk_platform");
    match &types[0].details {
        TypeDetails::Include(d) => {
            assert_eq!(d.items.len(), 1);
            assert_eq!(d.items[0].text, "#include \"vk_platform.h\"");
            assert!(d.items[0].kind == GenericItemKind::Text);
        }
        _ => panic!("expected include"),
    }
    assert_eq!(types[1].common.name, "VK_API");
    match &types[1].details {
        TypeDetails::Define(d) => {
            assert_eq!(d.items.len(), 3);
            assert_eq!(d.items[0].text, "#define ");
            assert!(d.items[1].kind == GenericItemKind::Name);
            assert_eq!(d.items[2].text, " 1");
        }
        _ => panic!("expected define"),
    }
    assert_eq!(types[2].common.name, "VkFlags");
    assert!(matches!(&types[2].details, TypeDetails::Base(d) if d.items.len() == 4));
    assert_eq!(types[3].common.name, "VkDevice");
    match &types[3].details {
        TypeDetails::Handle(d) => {
            assert_eq!(d.parent.as_deref(), Some("VkInstance"));
            assert_eq!(d.obj_type_enum.as_deref(), Some("VK_OBJECT_TYPE_DEVICE"));
        }
        _ => panic!("expected handle"),
    }
    assert_eq!(types[4].common.name, "VkMask");
    assert_eq!(types[4].common.requires.as_deref(), Some("VkBits"));
    assert!(matches!(&types[4].details, TypeDetails::Bitmask(d) if d.bit_values.as_deref() == Some("VkBits2")));
    assert_eq!(types[5].common.name, "VkKind");
    assert!(matches!(&types[5].details, TypeDetails::Enum(_)));
    assert_eq!(types[6].common.name, "PFN_vkVoid");
    assert!(matches!(&types[6].details, TypeDetails::FnPtr(_)));
    match &types[7].details {
        TypeDetails::Struct(d) => {
            assert_eq!(d.returned_only, Some(true));
            assert_eq!(d.allow_duplicate, Some(false));
            assert_eq!(d.extends, Some(vec!["VkA".to_string(), "VkB".to_string()]));
            assert_eq!(d.members.len(), 2);
            match &d.members[0] {
                StructItem::Member(m) => {
                    assert_eq!(m.name, "x");
                    assert_eq!(m.items.len(), 2);
                    assert!(m.items[0].kind == GenericItemKind::Type);
                    assert_eq!(m.items[0].text, "int");
                    assert!(m.items[1].kind == GenericItemKind::Name);
                }
                _ => panic!("expected a member"),
            }
            assert!(matches!(&d.members[1], StructItem::Comment(c) if c.text == "c"));
        }
        _ => panic!("expected struct"),
    }
    assert!(matches!(&types[8].details, TypeDetails::Union(d) if d.returned_only == Some(false) && d.members.len() == 1));
    assert_eq!(types[9].common.name, "Display");
    assert_eq!(types[9].common.requires.as_deref(), Some("X11/Xlib.h"));
    assert!(matches!(&types[9].details, TypeDetails::Imported(_)));
}

#[test]
fn include_takes_its_name_from_its_directive() {
    let r = registry(
        "<registry><types>\
         <type category=\"include\">#include \"vk_platform.h\"</type>\
         <type category=\"include\">#include &lt;X11/Xlib.h&gt;</type>\
         <type category=\"include\" name=\"named\">#include \"other.h\"</type>\
         <type category=\"include\">#include nothing</type>\
         </types></registry>",
    );
    let types = types_of(&r);
    assert_eq!(types[0].common.name, "vk_platform.h");
    assert_eq!(types[1].common.name, "X11/Xlib.h");
    assert_eq!(types[2].common.name, "named");
    assert_eq!(types[3].common.name, "");
    assert_eq!(gen_vulkan::parse::generic::header_name("a <b> \"c\"").as_deref(), Some("b"));
    assert_eq!(gen_vulkan::parse::generic::header_name("a \"c\" <b>").as_deref(), Some("c"));
    assert_eq!(gen_vulkan::parse::generic::header_name("\"open"), None);
    assert_eq!(gen_vulkan::parse::generic::between("x(y)z", '(', ')').as_deref(), Some("y"));
    assert_eq!(gen_vulkan::parse::generic::between("x()z", '(', ')').as_deref(), Some(""));
    assert_eq!(gen_vulkan::parse::generic::between("x)z(", '(', ')'), None);
}

#[test]
fn unknown_category_is_a_bad_attribute() {
    assert!(matches!(
        error("<registry><types><type category=\"other\" name=\"A\"/></types></registry>"),
        ParseError::BadAttrib(e, a, v) if e == "type" && a == "category" && v == "other"
    ));
}

#[test]
fn bad_boolean_is_a_bad_attribute() {
    assert!(matches!(
        error("<registry><types><type category=\"struct\" name=\"A\" returnedonly=\"yes\"/></types></registry>"),
        ParseError::BadAttrib(e, a, v) if e == "type" && a == "returnedonly" && v == "yes"
    ));
    assert!(matches!(
        error("<registry><types><type category=\"struct\" name=\"A\"><member optional=\"true,maybe\"><type>int</type><name>x</name></member></type></types></registry>"),
        ParseError::BadAttrib(e, a, v) if e == "member" && a == "optional" && v == "true,maybe"
    ));
}

#[test]
fn type_common_takes_its_attributes() {
    let mut common = TypeCommon::empty();
    let mut attribs = pairs(&[
        ("name", "VkA"),
        ("requires", "VkB"),
        ("deprecated", "aliased"),
        ("api", "vulkan,vulkansc"),
        ("alias", "VkC"),
        ("comment", "c"),
        ("other", "left"),
    ]);
    assert!(common.parse_attribs("type", &mut attribs).is_ok());
    assert_eq!(common.name, "VkA");
    assert_eq!(common.requires.as_deref(), Some("VkB"));
    assert_eq!(common.deprecated, Some(Deprecation::Aliased));
    assert_eq!(common.api, Some(vec!["vulkan".to_string(), "vulkansc".to_string()]));
    assert_eq!(common.alias.as_deref(), Some("VkC"));
    assert_eq!(common.comment.as_deref(), Some("c"));
    assert_eq!(attribs.entries, vec![("other".to_string(), "left".to_string())]);

    let mut common = TypeCommon::empty();
    let mut attribs = pairs(&[("deprecated", "perhaps")]);
    assert!(matches!(
        common.parse_attribs("type", &mut attribs),
        Err(ParseError::BadAttrib(e, a, v)) if e == "type" && a == "deprecated" && v == "perhaps"
    ));
}

#[test]
fn member_attributes() {
    let r = registry(
        "<registry><types><type category=\"struct\" name=\"VkS\">\
         <member api=\"vulkan\" values=\"A,B\" optional=\"true,false\" deprecated=\"ignored\" noautovalidity=\"true\" externsync=\"false\" limittype=\"min,pot\" len=\"count,null-terminated\" objecttype=\"t\" selection=\"s\" selector=\"q\" comment=\"c\">const <type>char</type>* <name>p</name></member>\
         <member len=\"a\" altlen=\"b\"><type>int</type><name>n</name></member>\
         <member len=\"2\"><type>int</type><name>k</name></member>\
         </type></types></registry>",
    );
    let types = types_of(&r);
    let members = match &types[0].details {
        TypeDetails::Struct(d) => &d.members,
        _ => panic!("expected struct"),
    };
    match &members[0] {
        StructItem::Member(m) => {
            assert_eq!(m.api.as_deref(), Some("vulkan"));
            assert_eq!(m.values, Some(vec!["A".to_string(), "B".to_string()]));
            assert_eq!(m.optional, Some(vec![true, false]));
            assert_eq!(m.deprecated, Some(Deprecation::Ignored));
            assert_eq!(m.no_auto_validity, Some(true));
            assert_eq!(m.extern_sync, Some(false));
            assert_eq!(m.limit_type, Some(vec![LimitType::Min, LimitType::Pot]));
            let len = m.len.as_ref().unwrap();
            assert_eq!(len.len(), 2);
            assert!(matches!(&len[0], Len::Member(s) if s == "count"));
            assert!(matches!(&len[1], Len::NullTerminated));
            assert_eq!(m.object_type.as_deref(), Some("t"));
            assert_eq!(m.selection.as_deref(), Some("s"));
            assert_eq!(m.selector.as_deref(), Some("q"));
            assert_eq!(m.comment.as_deref(), Some("c"));
            assert_eq!(m.name, "p");
            let texts: Vec<&str> = m.items.iter().map(|i| i.text.as_str()).collect();
            assert_eq!(texts, vec!["const ", "char", "* ", "p"]);
        }
        _ => panic!("expected a member"),
    }
    match &members[1] {
        StructItem::Member(m) => {
            let len = m.len.as_ref().unwrap();
            assert_eq!(len.len(), 1);
            assert!(matches!(&len[0], Len::Alt(a, b) if a == "a" && b == "b"));
        }
        _ => panic!("expected a member"),
    }
    match &members[2] {
        StructItem::Member(m) => {
            let len = m.len.as_ref().unwrap();
            assert!(matches!(&len[0], Len::Number(s) if s == "2"));
        }
        _ => panic!("expected a member"),
    }
}

#[test]
fn bad_limit_type_names_the_member() {
    assert!(matches!(
        error("<registry><types><type category=\"struct\" name=\"A\"><member limittype=\"min,huge\"><type>int</type><name>x</name></member></type></types></registry>"),
        ParseError::BadAttrib(e, a, v) if e == "member" && a == "limittype" && v == "min,huge"
    ));
}

#[test]
fn limit_type_from_attrib() {
    assert!(matches!(LimitType::from_attrib(None), Ok(None)));
    assert_eq!(
        LimitType::from_attrib(Some("noauto,struct,range,exact,pot,min,max,mul,bitmask,bits,not".to_string())).unwrap(),
        Some(vec![
            LimitType::NoAuto,
            LimitType::Struct,
            LimitType::Range,
            LimitType::Exact,
            LimitType::Pot,
            LimitType::Min,
            LimitType::Max,
            LimitType::Mul,
            LimitType::Bitmask,
            LimitType::Bits,
            LimitType::Not,
        ])
    );
    assert_eq!(LimitType::from_attrib(Some("min,".to_string())), Err("min,".to_string()));
}

#[test]
fn len_from_attribs() {
    assert!(Len::from_attribs(None, Some("x".to_string())).is_none());
    let both = Len::from_attribs(Some("a,b".to_string()), Some("c".to_string())).unwrap();
    assert_eq!(both.len(), 1);
    assert!(matches!(&both[0], Len::Alt(a, b) if a == "a,b" && b == "c"));
    let list = Len::from_attribs(Some("n,null-terminated,3,_x".to_string()), None).unwrap();
    assert_eq!(list.len(), 4);
    assert!(matches!(&list[0], Len::Member(s) if s == "n"));
    assert!(matches!(&list[1], Len::NullTerminated));
    assert!(matches!(&list[2], Len::Number(s) if s == "3"));
    assert!(matches!(&list[3], Len::Number(s) if s == "_x"));
}

#[test]
fn values_from_text() {
    assert!(matches!(<bool as FromText>::from_str("true"), Ok(true)));
    assert!(matches!(<bool as FromText>::from_str("false"), Ok(false)));
    assert!(<bool as FromText>::from_str("True").is_err());
    assert!(matches!(Deprecation::from_str("false"), Ok(Deprecation::False)));
    assert!(matches!(Deprecation::from_str("true"), Ok(Deprecation::True)));
    assert!(matches!(Deprecation::from_str("aliased"), Ok(Deprecation::Aliased)));
    assert!(matches!(Deprecation::from_str("ignored"), Ok(Deprecation::Ignored)));
    assert!(Deprecation::from_str("").is_err());
    assert!(matches!(EnumsType::from_str("constants"), Ok(EnumsType::Constants)));
    assert!(matches!(EnumsType::from_str("enum"), Ok(EnumsType::Enum)));
    assert!(matches!(EnumsType::from_str("bitmask"), Ok(EnumsType::Bitmask)));
    assert!(EnumsType::from_str("flags").is_err());
    assert!(matches!(Dir::from_str("+"), Ok(Dir::Pos)));
    assert!(matches!(Dir::from_str("-"), Ok(Dir::Neg)));
    assert!(Dir::from_str("").is_err());
    assert!(matches!(ExternSync::from_str("true"), Ok(ExternSync::True)));
    assert!(matches!(ExternSync::from_str("false"), Ok(ExternSync::False)));
    assert!(matches!(ExternSync::from_str("pInfo->x"), Ok(ExternSync::Field(s)) if s == "pInfo->x"));
    assert!(matches!(Len::from_str("\u{e9}t\u{e9}"), Ok(Len::Member(_))));
    assert!(matches!(Len::from_str(""), Ok(Len::Number(s)) if s.is_empty()));
    assert!(LimitType::from_str("Min").is_err());
}

#[test]
fn attribs_behave_as_a_map() {
    let mut a = pairs(&[("x", "1"), ("y", "2"), ("x", "3")]);
    assert!(a.contains_key("x"));
    assert!(!a.contains_key("z"));
    assert_eq!(a.first(), Some(("x".to_string(), "1".to_string())));
    assert_eq!(a.remove("x").as_deref(), Some("3"));
    assert!(!a.contains_key("x"));
    assert_eq!(a.remove("x"), None);
    assert_eq!(a.entries, vec![("y".to_string(), "2".to_string())]);
    assert!(matches!(
        a.req_attrib("e", "z"),
        Err(ParseError::ReqAttrib(e, k)) if e == "e" && k == "z"
    ));
    assert_eq!(a.req_attrib("e", "y").unwrap(), "2");
    assert!(a.is_empty());
    assert_eq!(a.first(), None);
    let mut a = pairs(&[("l", "a,,b"), ("b", "true"), ("n", "nope")]);
    assert_eq!(a.remove_list("l"), Some(vec!["a".to_string(), "".to_string(), "b".to_string()]));
    assert_eq!(a.remove_list("l"), None);
    assert_eq!(a.try_get::<bool>("e", "b").unwrap(), Some(true));
    assert_eq!(a.try_get::<bool>("e", "b").unwrap(), None);
    assert!(matches!(
        a.try_get::<bool>("e", "n"),
        Err(ParseError::BadAttrib(e, k, v)) if e == "e" && k == "n" && v == "nope"
    ));
    let mut a = pairs(&[("l", "x,y")]);
    assert_eq!(a.req_list("e", "l").unwrap(), vec!["x".to_string(), "y".to_string()]);
    assert!(matches!(a.req_list("e", "l"), Err(ParseError::ReqAttrib(_, _))));
    let mut a = pairs(&[("o", "true,false,true")]);
    assert_eq!(a.try_get_list::<bool>("e", "o").unwrap(), Some(vec![true, false, true]));
}

#[test]
fn enums_and_their_kinds() {
    let r = registry(
        "<registry>\
         <enums name=\"API Constants\" comment=\"c\"><enum type=\"uint32_t\" value=\"256\" name=\"VK_MAX\"/><enum name=\"VK_OLD\" alias=\"VK_MAX\"/></enums>\
         <enums name=\"VkKind\" type=\"enum\"><comment>x</comment><enum value=\"0\" name=\"VK_KIND_A\" api=\"vulkan\" deprecated=\"true\" comment=\"a\"/><unused start=\"1\" comment=\"u\"/></enums>\
         <enums name=\"VkBits\" type=\"bitmask\" bitwidth=\"64\"><enum bitpos=\"3\" name=\"VK_BIT\"/></enums>\
         </registry>",
    );
    match &r.items[0] {
        RegistryItem::Enums(e) => {
            assert_eq!(e.name, "API Constants");
            assert!(e.ty == EnumsType::Constants);
            assert_eq!(e.comment.as_deref(), Some("c"));
            match &e.contents[0] {
                EnumsItem::Enum(en) => {
                    assert_eq!(en.common.name, "VK_MAX");
                    assert!(matches!(&en.details, EnumDetails::Constant(d) if d.value == "256" && d.ty == "uint32_t"));
                }
                _ => panic!("expected an enum"),
            }
            match &e.contents[1] {
                EnumsItem::Enum(en) => {
                    assert!(matches!(&en.details, EnumDetails::Alias(d) if d.alias == "VK_MAX"));
                }
                _ => panic!("expected an enum"),
            }
        }
        _ => panic!("expected enums"),
    }
    match &r.items[1] {
        RegistryItem::Enums(e) => {
            assert!(e.ty == EnumsType::Enum);
            assert!(matches!(&e.contents[0], EnumsItem::Comment(c) if c.text == "x"));
            match &e.contents[1] {
                EnumsItem::Enum(en) => {
                    assert_eq!(en.common.api.as_deref(), Some("vulkan"));
                    assert_eq!(en.common.deprecated, Some(Deprecation::True));
                    assert_eq!(en.common.comment.as_deref(), Some("a"));
                    assert!(matches!(&en.details, EnumDetails::Value(d) if d.value == "0"));
                }
                _ => panic!("expected an enum"),
            }
            assert!(matches!(&e.contents[2], EnumsItem::Unused(u) if u.start == "1" && u.comment.as_deref() == Some("u")));
        }
        _ => panic!("expected enums"),
    }
    match &r.items[2] {
        RegistryItem::Enums(e) => {
            assert!(e.ty == EnumsType::Bitmask);
            assert_eq!(e.bit_width.as_deref(), Some("64"));
            match &e.contents[0] {
                EnumsItem::Enum(en) => assert!(matches!(&en.details, EnumDetails::Bit(d) if d.bit_pos == "3")),
                _ => panic!("expected an enum"),
            }
        }
        _ => panic!("expected enums"),
    }
    assert!(matches!(
        error("<registry><enums name=\"A\" type=\"other\"/></registry>"),
        ParseError::BadAttrib(e, a, v) if e == "enums" && a == "type" && v == "other"
    ));
    assert!(matches!(
        error("<registry><enums name=\"A\"><enum name=\"X\"/></enums></registry>"),
        ParseError::ReqAttrib(e, a) if e == "enum" && a == "value"
    ));
}

#[test]
fn commands() {
    let r = registry(
        "<registry><commands comment=\"c\">\
         <command successcodes=\"VK_SUCCESS\" errorcodes=\"VK_ERROR_A,VK_ERROR_B\" queues=\"graphics\" renderpass=\"both\" videocoding=\"outside\" cmdbufferlevel=\"primary,secondary\" tasks=\"action\" api=\"vulkan\">\
         <proto><type>VkResult</type> <name>vkDo</name></proto>\
         <param optional=\"false,true\" externsync=\"pInfo->x\" noautovalidity=\"true\" len=\"n\" stride=\"s\" objecttype=\"o\" validstructs=\"VkA,VkB\">const <type>VkInfo</type>* <name>pInfo</name></param>\
         <implicitexternsyncparams><param>the pool</param></implicitexternsyncparams>\
         <comment>x</comment>\
         </command>\
         <command name=\"vkDoKHR\" alias=\"vkDo\"/>\
         <comment>y</comment>\
         </commands></registry>",
    );
    let commands = match &r.items[0] {
        RegistryItem::Commands(c) => c,
        _ => panic!("expected commands"),
    };
    assert_eq!(commands.comment.as_deref(), Some("c"));
    match &commands.items[0] {
        CommandsItem::Command(Command::Defined(d)) => {
            assert_eq!(d.api.as_deref(), Some("vulkan"));
            assert_eq!(d.success_codes, Some(vec!["VK_SUCCESS".to_string()]));
            assert_eq!(d.error_codes, Some(vec!["VK_ERROR_A".to_string(), "VK_ERROR_B".to_string()]));
            assert_eq!(d.queues, Some(vec!["graphics".to_string()]));
            assert_eq!(d.render_pass.as_deref(), Some("both"));
            assert_eq!(d.video_coding.as_deref(), Some("outside"));
            assert_eq!(d.cmd_buffer_level, Some(vec!["primary".to_string(), "secondary".to_string()]));
            assert_eq!(d.tasks, Some(vec!["action".to_string()]));
            let proto: Vec<&str> = d.proto.items.iter().map(|i| i.text.as_str()).collect();
            assert_eq!(proto, vec!["VkResult", "vkDo"]);
            assert_eq!(d.items.len(), 3);
            match &d.items[0] {
                CommandItem::Param(p) => {
                    assert_eq!(p.optional, Some(vec![false, true]));
                    assert!(matches!(&p.extern_sync, Some(ExternSync::Field(s)) if s == "pInfo->x"));
                    assert_eq!(p.no_auto_validity, Some(true));
                    assert!(matches!(&p.len.as_ref().unwrap()[0], Len::Member(s) if s == "n"));
                    assert_eq!(p.stride.as_deref(), Some("s"));
                    assert_eq!(p.object_type.as_deref(), Some("o"));
                    assert_eq!(p.valid_structs, Some(vec!["VkA".to_string(), "VkB".to_string()]));
                    assert_eq!(p.items.len(), 4);
                }
                _ => panic!("expected a parameter"),
            }
            assert!(matches!(&d.items[1], CommandItem::ImplicitExternSyncParams(p) if p.items[0].text == "the pool"));
            assert!(matches!(&d.items[2], CommandItem::Comment(c) if c.text == "x"));
        }
        _ => panic!("expected a defined command"),
    }
    assert!(matches!(
        &commands.items[1],
        CommandsItem::Command(Command::Alias(a)) if a.name == "vkDoKHR" && a.alias == "vkDo"
    ));
    assert!(matches!(&commands.items[2], CommandsItem::Comment(c) if c.text == "y"));
}

#[test]
fn features_and_extensions() {
    let r = registry(
        "<registry>\
         <feature api=\"vulkan,vulkansc\" name=\"VK_VERSION_1_0\" number=\"1.0\" depends=\"A+B\" comment=\"c\">\
         <require comment=\"r\" api=\"vulkan\" depends=\"X\"><type name=\"VkA\" comment=\"t\"/><command name=\"vkDo\"/><enum name=\"VK_X\"/><feature name=\"f\" struct=\"VkF\"/><comment>z</comment></require>\
         <remove reasonlink=\"why\"><type name=\"VkB\"/></remove>\
         <comment>q</comment>\
         </feature>\
         <extensions comment=\"e\">\
         <extension name=\"VK_KHR_a\" number=\"4\" supported=\"vulkan\" type=\"device\" depends=\"(A,B)+C\" platform=\"win32\" deprecatedby=\"d\" obsoletedby=\"o\" promotedto=\"p\" author=\"KHR\" contact=\"c\" ratified=\"vulkan\" provisional=\"true\" specialuse=\"s\" sortorder=\"1\" comment=\"x\">\
         <require>\
         <enum value=\"1\" name=\"VK_KHR_A_SPEC_VERSION\"/>\
         <enum offset=\"3\" extends=\"VkKind\" dir=\"-\" extnumber=\"5\" name=\"VK_KIND_B\" protect=\"P\" api=\"vulkan\" deprecated=\"false\"/>\
         <enum bitpos=\"2\" extends=\"VkBits\" name=\"VK_BIT_B\"/>\
         <enum extends=\"VkKind\" name=\"VK_KIND_C\" alias=\"VK_KIND_B\"/>\
         </require>\
         </extension>\
         </extensions>\
         </registry>",
    );
    match &r.items[0] {
        RegistryItem::Feature(f) => {
            assert_eq!(f.name, "VK_VERSION_1_0");
            assert_eq!(f.number, "1.0");
            assert_eq!(f.api, vec!["vulkan".to_string(), "vulkansc".to_string()]);
            assert!(f.depends.is_some());
            assert_eq!(f.comment.as_deref(), Some("c"));
            match &f.items[0] {
                gen_vulkan::parse::FeatureItem::Require(req) => {
                    assert_eq!(req.comment.as_deref(), Some("r"));
                    assert_eq!(req.api.as_deref(), Some("vulkan"));
                    assert!(matches!(&req.items[0], RequireItem::Type(t) if t.name == "VkA" && t.comment.as_deref() == Some("t")));
                    assert!(matches!(&req.items[1], RequireItem::Command(c) if c.name == "vkDo"));
                    assert!(matches!(&req.items[2], RequireItem::Enum(e) if e.common.name == "VK_X"));
                    assert!(matches!(&req.items[3], RequireItem::Feature(x) if x.name == "f" && x.struct_name == "VkF"));
                    assert!(matches!(&req.items[4], RequireItem::Comment(c) if c.text == "z"));
                }
                _ => panic!("expected require"),
            }
            assert!(matches!(&f.items[1], gen_vulkan::parse::FeatureItem::Remove(x) if x.reason_link.as_deref() == Some("why") && x.items.len() == 1));
            assert!(matches!(&f.items[2], gen_vulkan::parse::FeatureItem::Comment(c) if c.text == "q"));
        }
        _ => panic!("expected a feature"),
    }
    match &r.items[1] {
        RegistryItem::Extensions(e) => {
            let x = &e.items[0];
            assert_eq!(x.name, "VK_KHR_a");
            assert_eq!(x.number, "4");
            assert_eq!(x.supported_api, vec!["vulkan".to_string()]);
            assert_eq!(x.extension_type.as_deref(), Some("device"));
            assert_eq!(x.platform.as_deref(), Some("win32"));
            assert_eq!(x.deprecated_by.as_deref(), Some("d"));
            assert_eq!(x.obsoleted_by.as_deref(), Some("o"));
            assert_eq!(x.promoted_to.as_deref(), Some("p"));
            assert_eq!(x.author.as_deref(), Some("KHR"));
            assert_eq!(x.contact.as_deref(), Some("c"));
            assert_eq!(x.ratified.as_deref(), Some("vulkan"));
            assert_eq!(x.provisional, Some(true));
            assert_eq!(x.special_use.as_deref(), Some("s"));
            assert_eq!(x.sort_order.as_deref(), Some("1"));
            assert_eq!(x.comment.as_deref(), Some("x"));
            let req = match &x.items[0] {
                ExtensionItem::Require(r) => r,
                _ => panic!("expected require"),
            };
            match &req.items[0] {
                RequireItem::Enum(e) => assert!(matches!(&e.details, RequireEnumDetails::Value(d) if d.value.as_deref() == Some("1"))),
                _ => panic!("expected an enum"),
            }
            match &req.items[1] {
                RequireItem::Enum(e) => {
                    assert_eq!(e.common.extends.as_deref(), Some("VkKind"));
                    assert_eq!(e.common.protect.as_deref(), Some("P"));
                    assert_eq!(e.common.deprecated, Some(Deprecation::False));
                    assert_eq!(e.common.api, Some(vec!["vulkan".to_string()]));
                    assert!(matches!(&e.details, RequireEnumDetails::Offset(d) if d.offset == "3" && d.dir == Some(Dir::Neg) && d.ext_number.as_deref() == Some("5")));
                }
                _ => panic!("expected an enum"),
            }
            match &req.items[2] {
                RequireItem::Enum(e) => assert!(matches!(&e.details, RequireEnumDetails::Bit(d) if d.bit_pos == "2" && d.ext_number.is_none())),
                _ => panic!("expected an enum"),
            }
            match &req.items[3] {
                RequireItem::Enum(e) => assert!(matches!(&e.details, RequireEnumDetails::Alias(d) if d.alias == "VK_KIND_B")),
                _ => panic!("expected an enum"),
            }
        }
        _ => panic!("expected extensions"),
    }
    assert!(matches!(
        error("<registry><feature api=\"vulkan\" name=\"A\" number=\"1\" depends=\"A+\"/></registry>"),
        ParseError::BadAttrib(e, a, v) if e == "feature" && a == "depends" && v == "A+"
    ));
    assert!(matches!(
        error("<registry><feature api=\"vulkan\" name=\"A\" number=\"1\"><require><other/></require></feature></registry>"),
        ParseError::BadStart(e) if e == "other"
    ));
}

#[test]
fn formats_spirv_sync_and_video() {
    let r = registry(
        "<registry>\
         <formats><format name=\"F\" class=\"8-bit\" blockSize=\"1\" texelsPerBlock=\"1\" packed=\"8\" blockExtent=\"4,4,1\" compressed=\"BC\" chroma=\"420\">\
         <component name=\"R\" bits=\"4\" numericFormat=\"UNORM\" planeIndex=\"0\"/><plane index=\"0\" widthDivisor=\"1\" heightDivisor=\"2\" compatible=\"G\"/><spirvimageformat name=\"R8\"/></format></formats>\
         <spirvextensions comment=\"s\"><spirvextension name=\"SPV_a\"><enable version=\"VK_VERSION_1_1\"/><enable extension=\"VK_KHR_a\"/></spirvextension></spirvextensions>\
         <spirvcapabilities><spirvcapability name=\"Cap\"><enable struct=\"VkF\" feature=\"f\" requires=\"A,B\" alias=\"g\"/><enable property=\"VkP\" member=\"m\" value=\"v\" requires=\"C\"/></spirvcapability></spirvcapabilities>\
         <sync comment=\"y\"><syncstage name=\"S\" alias=\"T\"><syncsupport queues=\"a,b\"/><syncequivalent stage=\"c,d\"/></syncstage>\
         <syncaccess name=\"A\"><comment>k</comment><syncsupport stage=\"e\"/><syncequivalent access=\"f\"/></syncaccess>\
         <syncpipeline name=\"P\" depends=\"X\"><syncpipelinestage order=\"None\" before=\"B\">STAGE</syncpipelinestage></syncpipeline></sync>\
         <videocodecs><videocodec name=\"Decode\" extend=\"e\" value=\"v\"><videoprofiles struct=\"VkV\"><videoprofilemember name=\"m\"><videoprofile name=\"n\" value=\"w\"/></videoprofilemember></videoprofiles><videocapabilities struct=\"VkC\"/><videoformat name=\"f\" usage=\"u\"/></videocodec></videocodecs>\
         </registry>",
    );
    assert_eq!(r.items.len(), 5);
    match &r.items[0] {
        RegistryItem::Formats(f) => {
            let x = &f.items[0];
            assert_eq!((x.name.as_str(), x.class.as_str(), x.block_size.as_str(), x.texels_per_block.as_str()), ("F", "8-bit", "1", "1"));
            assert_eq!(x.packed.as_deref(), Some("8"));
            assert_eq!(x.block_extent, Some(vec!["4".to_string(), "4".to_string(), "1".to_string()]));
            assert_eq!(x.compressed.as_deref(), Some("BC"));
            assert_eq!(x.chroma.as_deref(), Some("420"));
            assert!(matches!(&x.items[0], gen_vulkan::parse::FormatItem::Component(c) if c.name == "R" && c.bits == "4" && c.numeric_format == "UNORM" && c.plane_index.as_deref() == Some("0")));
            assert!(matches!(&x.items[1], gen_vulkan::parse::FormatItem::Plane(p) if p.index == "0" && p.width_divisor == "1" && p.height_divisor == "2" && p.compatible == "G"));
            assert!(matches!(&x.items[2], gen_vulkan::parse::FormatItem::SpirvImageFormat(s) if s.name == "R8"));
        }
        _ => panic!("expected formats"),
    }
    match &r.items[1] {
        RegistryItem::SpirvExtensions(s) => {
            assert_eq!(s.items[0].name, "SPV_a");
            assert!(matches!(&s.items[0].items[0], gen_vulkan::parse::SpirvItem::Enable(gen_vulkan::parse::Enable::Version(v)) if v.version == "VK_VERSION_1_1"));
            assert!(matches!(&s.items[0].items[1], gen_vulkan::parse::SpirvItem::Enable(gen_vulkan::parse::Enable::Extension(v)) if v.extension == "VK_KHR_a"));
        }
        _ => panic!("expected spirv extensions"),
    }
    match &r.items[2] {
        RegistryItem::SpirvCapabilities(s) => {
            assert!(matches!(&s.items[0].items[0], gen_vulkan::parse::SpirvItem::Enable(gen_vulkan::parse::Enable::Feature(f)) if f.struct_name == "VkF" && f.feature == "f" && f.requires == vec!["A".to_string(), "B".to_string()] && f.alias.as_deref() == Some("g")));
            assert!(matches!(&s.items[0].items[1], gen_vulkan::parse::SpirvItem::Enable(gen_vulkan::parse::Enable::Property(p)) if p.property == "VkP" && p.member == "m" && p.value == "v" && p.requires == vec!["C".to_string()]));
        }
        _ => panic!("expected spirv capabilities"),
    }
    match &r.items[3] {
        RegistryItem::Sync(s) => {
            assert_eq!(s.comment.as_deref(), Some("y"));
            match &s.items[0] {
                gen_vulkan::parse::SyncItem::Stage(st) => {
                    assert_eq!(st.name, "S");
                    assert_eq!(st.alias.as_deref(), Some("T"));
                    assert!(matches!(&st.items[0], gen_vulkan::parse::SyncStageItem::Support(x) if x.queues == vec!["a".to_string(), "b".to_string()]));
                    assert!(matches!(&st.items[1], gen_vulkan::parse::SyncStageItem::Equivalent(x) if x.stage == vec!["c".to_string(), "d".to_string()]));
                }
                _ => panic!("expected a stage"),
            }
            match &s.items[1] {
                gen_vulkan::parse::SyncItem::Access(a) => {
                    assert!(matches!(&a.items[0], gen_vulkan::parse::SyncAccessItem::Comment(c) if c.text == "k"));
                    assert!(matches!(&a.items[1], gen_vulkan::parse::SyncAccessItem::Support(x) if x.stage == vec!["e".to_string()]));
                    assert!(matches!(&a.items[2], gen_vulkan::parse::SyncAccessItem::Equivalent(x) if x.access == vec!["f".to_string()]));
                }
                _ => panic!("expected an access"),
            }
            match &s.items[2] {
                gen_vulkan::parse::SyncItem::Pipeline(p) => {
                    assert_eq!(p.name, "P");
                    assert!(p.depends.is_some());
                    assert_eq!(p.items[0].order.as_deref(), Some("None"));
                    assert_eq!(p.items[0].before.as_deref(), Some("B"));
                    assert_eq!(p.items[0].content, "STAGE");
                }
                _ => panic!("expected a pipeline"),
            }
        }
        _ => panic!("expected sync"),
    }
    match &r.items[4] {
        RegistryItem::VideoCodecs(v) => {
            let c = &v.items[0];
            assert_eq!(c.name, "Decode");
            assert_eq!(c.extend.as_deref(), Some("e"));
            assert_eq!(c.value.as_deref(), Some("v"));
            assert!(matches!(&c.items[0], gen_vulkan::parse::VideoCodecItem::Profiles(p) if p.struct_name == "VkV" && p.members[0].name == "m" && p.members[0].items[0].name == "n" && p.members[0].items[0].value == "w"));
            assert!(matches!(&c.items[1], gen_vulkan::parse::VideoCodecItem::Capabilities(x) if x.struct_name == "VkC"));
            assert!(matches!(&c.items[2], gen_vulkan::parse::VideoCodecItem::Format(x) if x.name == "f" && x.usage == "u"));
        }
        _ => panic!("expected video codecs"),
    }
    assert!(matches!(
        error("<registry><spirvextensions><spirvextension name=\"a\"><enable/></spirvextension></spirvextensions></registry>"),
        ParseError::BadStart(e) if e == "enable"
    ));
}

#[test]
fn generic_item_holds_text_only() {
    let item = GenericItem::text("abc".to_string());
    assert_eq!(item.text, "abc");
    assert!(item.kind == GenericItemKind::Text);
    let mut reader = Reader::new(vec![
        Token { event: Event::Text("a".to_string()), pos: at(0, 0) },
        Token { event: Event::Misc, pos: at(0, 0) },
        Token { event: Event::Text("b".to_string()), pos: at(0, 0) },
        Token { event: Event::End("enum".to_string()), pos: at(0, 0) },
    ]);
    let mut attribs = Attribs::from_pairs(Vec::new());
    let item = GenericItem::parse(&mut reader, "enum".to_string(), &mut attribs).ok().unwrap();
    assert_eq!(item.text, "ab");
    assert!(item.kind == GenericItemKind::Enum);
    let mut reader = Reader::new(Vec::new());
    assert!(matches!(
        GenericItem::parse(&mut reader, "member".to_string(), &mut attribs),
        Err(ParseError::BadStart(e)) if e == "member"
    ));
    let mut reader = Reader::new(Vec::new());
    assert!(matches!(
        GenericItem::parse(&mut reader, "type".to_string(), &mut attribs),
        Err(ParseError::DocEnd(e)) if e == "type"
    ));
    let mut reader = Reader::new(vec![Token { event: Event::End("name".to_string()), pos: at(0, 0) }]);
    assert!(matches!(
        GenericItem::parse(&mut reader, "type".to_string(), &mut attribs),
        Err(ParseError::BadEnd(e)) if e == "name"
    ));
}

#[test]
fn handler_protocol_on_a_platform() {
    assert_eq!(Platform::name(), "platform");
    let mut p = Platform::empty();
    assert!(matches!(
        p.parse_text("x".to_string()),
        Err(ParseError::BadContent(e, t)) if e == "platform" && t == "x"
    ));
    let mut reader = Reader::new(Vec::new());
    let mut attribs = Attribs::from_pairs(Vec::new());
    assert!(matches!(
        p.parse_child(&mut reader, "c".to_string(), &mut attribs),
        Err(ParseError::BadChild(e, c)) if e == "platform" && c == "c"
    ));
    assert!(matches!(
        Platform::parse(&mut reader, "tag".to_string(), &mut attribs),
        Err(ParseError::BadStart(e)) if e == "tag"
    ));
    assert!(p.parse_misc().is_ok());
    assert_eq!(p.name, "");
}

#[test]
fn comments_and_white_space_are_let_pass() {
    let r = registry(
        "<?xml version=\"1.0\" encoding=\"UTF-8\"?>\n<!-- top -->\n<registry>\n  <!-- inside -->\n  <comment>a<!-- within -->b</comment>\n  <?pi data?>\n  <platforms>\n    <platform name=\"p\" protect=\"q\">\n    </platform>\n  </platforms>\n</registry>\n<!-- after -->\n",
    );
    assert_eq!(r.items.len(), 2);
    assert!(matches!(&r.items[0], RegistryItem::Comment(c) if c.text == "ab"));
    assert!(matches!(&r.items[1], RegistryItem::Platforms(p) if p.items.len() == 1));
}
