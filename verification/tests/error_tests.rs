use gen_vulkan::cmd::process_cmd_line;
use gen_vulkan::cmd::Settings;
use gen_vulkan::error::CmdError;
use gen_vulkan::error::EmitError;
use gen_vulkan::error::Error;
use gen_vulkan::error::ParseError;
use gen_vulkan::error::TextPosition;
use gen_vulkan::error::TransError;
use gen_vulkan::repr::Vulkan;

fn s(x: &str) -> String {
    x.to_string()
}

fn args(list: &[&str]) -> Vec<String> {
    list.iter().map(|a| a.to_string()).collect()
}

#[test]
fn places_count_from_one() {
    assert_eq!(TextPosition::new(), TextPosition { row: 0, column: 0 });
    assert_eq!(TextPosition::new().message(), "1:1");
    assert_eq!(TextPosition { row: 9, column: 41 }.message(), "10:42");
    assert_eq!(
        TextPosition { row: u64::MAX, column: u64::MAX }.message(),
        "18446744073709551616:18446744073709551616"
    );
}

#[test]
fn parse_errors_in_words() {
    assert_eq!(ParseError::EmptyRegistry.message(), "empty registry");
    assert_eq!(ParseError::BadStart(s("a")).message(), "bad start <a>");
    assert_eq!(ParseError::BadContent(s("a"), s("t")).message(), "element <a> has bad content 't'");
    assert_eq!(ParseError::BadChild(s("a"), s("b")).message(), "element <a> has invalid child <b>");
    assert_eq!(ParseError::ReqAttrib(s("a"), s("k")).message(), "element <a> missing attribute 'k'");
    assert_eq!(ParseError::BadAttrib(s("a"), s("k"), s("v")).message(), "element <a> has bad attribute 'k=v'");
    assert_eq!(
        ParseError::UnreadAttrib(s("a"), s("k"), s("v")).message(),
        "element <a> has unread attribute 'k=v'"
    );
    assert_eq!(ParseError::BadEnd(s("a")).message(), "bad tag ending </a>");
    assert_eq!(ParseError::DocEnd(s("a")).message(), "document ended inside <a>");
}

#[test]
fn errors_of_the_other_layers_in_words() {
    assert_eq!(CmdError::BadCmdArg(s("-x")).message(), "bad command-line argument '-x'");
    assert_eq!(
        CmdError::ReqCmdArg(s("--path")).message(),
        "command-line argument '--path' unexpectedly terminated"
    );
    assert_eq!(TransError::TypeNotFound(s("VkA")).message(), "type 'VkA' not found");
    assert_eq!(TransError::BadType.message(), "bad type");
    assert_eq!(TransError::DuplicateName(s("VkA")).message(), "duplicate name 'VkA'");
    assert_eq!(EmitError::BadStructMember(s("VkA"), s("m")).message(), "structure 'VkA' has bad member 'm'");
}

#[test]
fn the_line_that_the_user_sees() {
    let e = Error::parse(TextPosition { row: 2, column: 4 }, ParseError::BadStart(s("a")));
    assert!(matches!(&e, Error::Parse(pos, ParseError::BadStart(_)) if pos.row == 2 && pos.column == 4));
    assert_eq!(e.message(), "error at 3:5: bad start <a>");
    assert_eq!(Error::Cmd(CmdError::BadCmdArg(s("x"))).message(), "bad command-line argument 'x'");
    assert_eq!(Error::Trans(TransError::BadType).message(), "bad type");
    assert_eq!(
        Error::Emit(EmitError::BadStructMember(s("a"), s("b"))).message(),
        "structure 'a' has bad member 'b'"
    );
    match Vulkan::from_xml(b"<registry>\n<a></b>") {
        Err(e) => {
            let line = e.message();
            assert!(line.starts_with("error at 2:"));
            assert!(line.len() > "error at 2:1: ".len());
        }
        Ok(_) => panic!("expected an error"),
    }
}

#[test]
fn command_line() {
    let settings = process_cmd_line(&args(&["prog"])).unwrap();
    assert_eq!(settings.parse.path, None);
    assert_eq!(settings.parse.url, None);
    assert!(!settings.parse.update);
    assert_eq!(settings.emit.output_dir, None);
    assert_eq!(settings.path(), "temp/registry/vulkan");
    assert_eq!(settings.url(), "https://raw.githubusercontent.com/KhronosGroup/Vulkan-Docs/main/xml/vk.xml");
    let settings = process_cmd_line(&args(&[
        "prog", "--path", "a", "--update", "--url", "u", "--out", "o", "--path", "b",
    ]))
    .unwrap();
    assert_eq!(settings.parse.path.as_deref(), Some("b"));
    assert_eq!(settings.parse.url.as_deref(), Some("u"));
    assert!(settings.parse.update);
    assert_eq!(settings.emit.output_dir.as_deref(), Some("o"));
    assert_eq!(settings.path(), "b");
    assert_eq!(settings.url(), "u");
    assert!(process_cmd_line(&Vec::new()).is_ok());
    assert!(process_cmd_line(&args(&["--path"])).is_ok());
    let empty = Settings::new();
    assert_eq!(empty.parse.path, None);
}

#[test]
fn command_line_errors() {
    assert!(matches!(
        process_cmd_line(&args(&["prog", "--path"])),
        Err(CmdError::ReqCmdArg(a)) if a == "--path"
    ));
    assert!(matches!(
        process_cmd_line(&args(&["prog", "--update", "--out"])),
        Err(CmdError::ReqCmdArg(a)) if a == "--out"
    ));
    assert!(matches!(
        process_cmd_line(&args(&["prog", "--url"])),
        Err(CmdError::ReqCmdArg(a)) if a == "--url"
    ));
    assert!(matches!(
        process_cmd_line(&args(&["prog", "-nV"])),
        Err(CmdError::BadCmdArg(a)) if a == "-nV"
    ));
    assert!(matches!(
        process_cmd_line(&args(&["prog", "--path", "a", "b"])),
        Err(CmdError::BadCmdArg(a)) if a == "b"
    ));
}
