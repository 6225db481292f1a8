use seal::output::{debug_print, pretty_print, prettify_output, Shown, ShownKey};

const RESET: &str = "\x1b[0m";
const RED: &str = "\x1b[31m";
const GREEN: &str = "\x1b[32m";
const BLUE: &str = "\x1b[34m";
const CYAN: &str = "\x1b[36m";

fn nested(levels: usize) -> Shown {
    let mut value = Shown::Table(vec![]);
    for _ in 0..levels {
        value = Shown::Table(vec![(ShownKey::Text("t".to_string()), value)]);
    }
    value
}

#[test]
fn scalars_at_the_top() {
    assert_eq!(prettify_output(&Shown::Text("hello".to_string())), "hello");
    assert_eq!(prettify_output(&Shown::Integer("42".to_string())), format!("{CYAN}42{RESET}"));
    assert_eq!(prettify_output(&Shown::Number("1.5".to_string())), format!("{BLUE}1.5{RESET}"));
    assert_eq!(prettify_output(&Shown::Boolean(true)), format!("{GREEN}true{RESET}"));
    assert_eq!(prettify_output(&Shown::Boolean(false)), format!("{GREEN}false{RESET}"));
    assert_eq!(prettify_output(&Shown::Nil), format!("{RED}nil{RESET}"));
    assert_eq!(
        prettify_output(&Shown::Function("function: 0x01".to_string())),
        format!("{RED}<function: 0x01>{RESET}")
    );
    assert_eq!(prettify_output(&Shown::Other("Vector(1, 2, 3)".to_string())), "Vector(1, 2, 3)");
}

#[test]
fn empty_table() {
    assert_eq!(prettify_output(&Shown::Table(vec![])), "{\n}");
}

#[test]
fn table_with_each_kind_of_key() {
    let table = Shown::Table(vec![
        (ShownKey::Text("name".to_string()), Shown::Text("seal".to_string())),
        (ShownKey::Text("two words".to_string()), Shown::Nil),
        (ShownKey::Text("x1".to_string()), Shown::Integer("1".to_string())),
        (ShownKey::Text("1x".to_string()), Shown::Integer("1".to_string())),
        (ShownKey::Integer("1".to_string()), Shown::Boolean(true)),
        (ShownKey::Number("2.5".to_string()), Shown::Boolean(false)),
        (ShownKey::Function, Shown::Nil),
        (ShownKey::Other("Boolean(true)".to_string()), Shown::Nil),
    ]);
    let eq = format!(" {CYAN}={RESET} ");
    let comma = format!("{CYAN},{RESET}\n");
    let expected = format!(
        "{{\n    name{eq}{GREEN}\"seal\"{RESET}{comma}    [{GREEN}\"two words\"{RESET}]{eq}{RED}nil{RESET}{comma}    x1{eq}{CYAN}1{RESET}{comma}    [{GREEN}\"1x\"{RESET}]{eq}{CYAN}1{RESET}{comma}    {CYAN}[{RESET}{BLUE}1{RESET}{CYAN}]{RESET}{eq}{GREEN}true{RESET}{comma}    {CYAN}[{RESET}{BLUE}2.5{RESET}{CYAN}]{RESET}{eq}{GREEN}false{RESET}{comma}    {RED}<function>{RESET}{eq}{RED}nil{RESET}{comma}    Boolean(true){eq}{RED}nil{RESET}{comma}}}"
    );
    assert_eq!(prettify_output(&table), expected);
}

#[test]
fn nested_tables_are_indented() {
    let table = Shown::Table(vec![(
        ShownKey::Text("inner".to_string()),
        Shown::Table(vec![(ShownKey::Text("k".to_string()), Shown::Integer("1".to_string()))]),
    )]);
    let eq = format!(" {CYAN}={RESET} ");
    let comma = format!("{CYAN},{RESET}");
    let expected = format!(
        "{{\n    inner{eq}{{\n        k{eq}{CYAN}1{RESET}{comma}\n    }}{comma}\n}}"
    );
    assert_eq!(prettify_output(&table), expected);
}

#[test]
fn tables_are_written_at_every_depth() {
    for levels in [0usize, 1, 9, 10, 11, 25, 60] {
        let text = prettify_output(&nested(levels));
        assert_eq!(text.matches("{\n").count(), levels + 1);
        assert_eq!(text.matches('}').count(), levels + 1);
        assert!(!text.contains("..."));
        // the innermost table closes at the indentation of its depth
        let innermost = format!("\n{}}}", " ".repeat(4 * levels));
        assert!(levels == 0 || text.contains(&innermost));
    }
}

#[test]
fn print_joins_its_values() {
    assert_eq!(pretty_print(&vec![]), "");
    assert_eq!(
        pretty_print(&vec![Shown::Text("a".to_string()), Shown::Integer("1".to_string())]),
        format!("a, {CYAN}1{RESET}")
    );
    assert_eq!(pretty_print(&vec![Shown::Text("only".to_string())]), "only");
}

#[test]
fn debug_print_is_plain() {
    assert_eq!(debug_print(&vec![]), "");
    assert_eq!(
        debug_print(&vec![
            Shown::Text("a\"b".to_string()),
            Shown::Integer("1".to_string()),
            Shown::Number("2.5".to_string()),
            Shown::Boolean(true),
            Shown::Nil,
            Shown::Function("Function(Ref(0x1))".to_string()),
        ]),
        "String(\"a\\\"b\"), Integer(1), Number(2.5), Boolean(true), Nil, Function(Ref(0x1))"
    );
}

#[test]
fn debug_print_of_tables() {
    let table = Shown::Table(vec![
        (ShownKey::Text("k".to_string()), Shown::Integer("1".to_string())),
        (
            ShownKey::Integer("2".to_string()),
            Shown::Table(vec![(ShownKey::Function, Shown::Nil)]),
        ),
    ]);
    assert_eq!(
        debug_print(&vec![table]),
        "{\n  String(\"k\") = Integer(1),\n  Integer(2) = {\n    Function = Nil,\n  },\n}"
    );
    let deep = debug_print(&vec![nested(12)]);
    assert_eq!(deep.matches("{\n").count(), 10);
}
