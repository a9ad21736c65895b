use papi::{ErrorKind, Node};

#[test]
fn parse_gives_the_root_table() {
    let document = Node::parse("name = \"cycles\"\n").unwrap();
    assert_eq!(
        document,
        Node::Table(vec![(String::from("name"), Node::String(String::from("cycles")))])
    );
}

#[test]
fn parse_of_empty_text_is_an_empty_table() {
    assert_eq!(Node::parse("").unwrap(), Node::Table(Vec::new()));
}

#[test]
fn parse_keeps_every_kind_of_value() {
    let text = "a = 1\nb = true\nc = 1.5\nd = 1979-05-27T07:32:00Z\ne = [\"x\", \"y\"]\n[f]\ng = -2\n";
    let document = Node::parse(text).unwrap();
    assert_eq!(document.get("a"), Some(&Node::Integer(1)));
    assert_eq!(document.get("b"), Some(&Node::Boolean(true)));
    assert_eq!(document.get("c"), Some(&Node::Float(1.5f64.to_bits())));
    assert_eq!(document.get("d"), Some(&Node::Datetime(String::from("1979-05-27T07:32:00Z"))));
    assert_eq!(
        document.get("e"),
        Some(&Node::Array(vec![Node::String(String::from("x")), Node::String(String::from("y"))]))
    );
    assert_eq!(
        document.get("f"),
        Some(&Node::Table(vec![(String::from("g"), Node::Integer(-2))]))
    );
    assert_eq!(document.get("h"), None);
}

#[test]
fn parse_keeps_the_order_of_an_array() {
    let document = Node::parse("e = [\"3\", \"1\", \"2\"]\n").unwrap();
    assert_eq!(
        document.get("e").unwrap().to_strings(),
        Some(vec![String::from("3"), String::from("1"), String::from("2")])
    );
}

#[test]
fn parse_error_is_an_invalid_argument() {
    let text = "a = \n";
    let expected = toml::from_str::<toml::Value>(text).unwrap_err().to_string();
    assert_eq!(Node::parse(text), Err(ErrorKind::InvalidArgument(expected)));
}

#[test]
fn get_finds_the_first_entry() {
    let table = Node::Table(vec![
        (String::from("a"), Node::Integer(1)),
        (String::from("b"), Node::Integer(2)),
        (String::from("a"), Node::Integer(3)),
    ]);
    assert_eq!(table.get("a"), Some(&Node::Integer(1)));
    assert_eq!(table.get("b"), Some(&Node::Integer(2)));
    assert_eq!(table.get("c"), None);
    assert_eq!(table.get(""), None);
}

#[test]
fn get_on_what_is_no_table() {
    assert_eq!(Node::Integer(1).get("a"), None);
    assert_eq!(Node::Array(vec![Node::String(String::from("a"))]).get("a"), None);
}

#[test]
fn to_strings_copies_an_array_of_strings() {
    let array = Node::Array(vec![Node::String(String::from("E1")), Node::String(String::new())]);
    assert_eq!(array.to_strings(), Some(vec![String::from("E1"), String::new()]));
    assert_eq!(Node::Array(Vec::new()).to_strings(), Some(Vec::new()));
}

#[test]
fn to_strings_refuses_everything_else() {
    let mixed = Node::Array(vec![Node::String(String::from("E1")), Node::Integer(2)]);
    assert_eq!(mixed.to_strings(), None);
    assert_eq!(Node::String(String::from("E1")).to_strings(), None);
    assert_eq!(Node::Table(Vec::new()).to_strings(), None);
    let nested = Node::Array(vec![Node::Array(vec![Node::String(String::from("E1"))])]);
    assert_eq!(nested.to_strings(), None);
}
