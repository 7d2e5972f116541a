use gen_vulkan::attribs::FromText;
use gen_vulkan::parse::Depends;

fn show(d: &Depends) -> String {
    match d {
        Depends::Feature(n) => format!("Feature({n})"),
        Depends::And(v) => format!("And([{}])", v.iter().map(show).collect::<Vec<_>>().join(", ")),
        Depends::Or(v) => format!("Or([{}])", v.iter().map(show).collect::<Vec<_>>().join(", ")),
    }
}

fn read(s: &str) -> Option<String> {
    match Depends::from_str(s) {
        Ok(d) => Some(show(&d)),
        Err(()) => None,
    }
}

#[test]
fn plus_binds_tighter_than_comma() {
    assert_eq!(read("A+B,C").as_deref(), Some("Or([And([Feature(A), Feature(B)]), Feature(C)])"));
    assert_eq!(read("A,B+C").as_deref(), Some("Or([Feature(A), And([Feature(B), Feature(C)])])"));
}

#[test]
fn parentheses_group() {
    assert_eq!(read("(A,B)+C").as_deref(), Some("And([Or([Feature(A), Feature(B)]), Feature(C)])"));
    assert_eq!(read("A+(B,C)").as_deref(), Some("And([Feature(A), Or([Feature(B), Feature(C)])])"));
    assert_eq!(read("(A)").as_deref(), Some("Feature(A)"));
    assert_eq!(
        read("((A+B),C)+D").as_deref(),
        Some("And([Or([And([Feature(A), Feature(B)]), Feature(C)]), Feature(D)])")
    );
}

#[test]
fn a_single_name_is_a_feature() {
    assert_eq!(read("VK_KHR_surface").as_deref(), Some("Feature(VK_KHR_surface)"));
}

#[test]
fn operands_on_the_right_join_those_on_the_left() {
    assert_eq!(read("A+B+C").as_deref(), Some("And([Feature(A), Feature(B), Feature(C)])"));
    assert_eq!(read("A,B,C").as_deref(), Some("Or([Feature(A), Feature(B), Feature(C)])"));
    assert_eq!(read("(A+B)+C").as_deref(), Some("And([And([Feature(A), Feature(B)]), Feature(C)])"));
    assert_eq!(read("A+(B+C)").as_deref(), Some("And([Feature(A), Feature(B), Feature(C)])"));
}

#[test]
fn what_is_no_expression_is_refused() {
    assert_eq!(read(""), None);
    assert_eq!(read("A+"), None);
    assert_eq!(read(",A"), None);
    assert_eq!(read("(A"), None);
    assert_eq!(read("A)"), None);
    assert_eq!(read("()"), None);
    assert_eq!(read("A++B"), None);
    assert_eq!(read("(A)(B)"), None);
}

#[test]
fn parse_reads_from_a_place_and_gives_the_place_after() {
    let (d, end) = Depends::parse("x,A+B)", 2).unwrap();
    assert_eq!(show(&d), "And([Feature(A), Feature(B)])");
    assert_eq!(end, 5);
    let (d, end) = Depends::parse_paren("(A,B)+C", 0).unwrap();
    assert_eq!(show(&d), "Or([Feature(A), Feature(B)])");
    assert_eq!(end, 5);
    let (d, end) = Depends::parse_and("A+B,C", 0).unwrap();
    assert_eq!(show(&d), "And([Feature(A), Feature(B)])");
    assert_eq!(end, 3);
    let (d, end) = Depends::parse_or("A,B", 0).unwrap();
    assert_eq!(show(&d), "Or([Feature(A), Feature(B)])");
    assert_eq!(end, 3);
    assert!(Depends::parse("", 0).is_none());
    assert!(Depends::parse("A", 1).is_none());
    assert!(Depends::parse("A", 7).is_none());
    assert!(Depends::parse_paren("A", 2).is_none());
}
