use composable_build::pattern::find_contracts;
use composable_build::scanner::WatContractsScanner;

const FOO: &str = "FOO_WAT_CONTRACT: &str = r#\"(module (func (export \"call\")))\"#;";

#[test]
fn scan_without_naming_convention_finds_nothing() {
    let mut scanner = WatContractsScanner::new_empty();
    let found = scanner.scan_from_text("pub fn call() {}\nstatic NOTE: &str = r#\"x\"#;\n");
    assert!(!found);
    assert_eq!(scanner.len(), 0);
}

#[test]
fn scan_of_empty_text_finds_nothing() {
    let mut scanner = WatContractsScanner::new_empty();
    assert!(!scanner.scan_from_text(""));
    assert_eq!(scanner.len(), 0);
}

#[test]
fn scan_registers_foo_contract() {
    let mut scanner = WatContractsScanner::new_empty();
    assert!(scanner.scan_from_text(FOO));
    assert_eq!(scanner.len(), 1);
    let contract = scanner.find_by_name("foo".to_string()).expect("foo is registered");
    assert_eq!(contract.name(), "foo");
    assert_eq!(contract.code(), "\"(module (func (export \"call\")))\"");
    assert_eq!(
        contract.module_text().expect("the body holds its two quotes"),
        b"(module (func (export \"call\")))".to_vec()
    );
}

#[test]
fn scan_reports_places_of_identifier_marker_and_terminator() {
    let text: Vec<char> = "static AB_WAT_CONTRACT: &str = r#\"m\"#;".chars().collect();
    assert_eq!(find_contracts(&text), vec![(7, 9, 36)]);
    let two: Vec<char> = "A_WAT_CONTRACT: &str = r#x#;B_WAT_CONTRACT: &str = r#yz#;#;".chars().collect();
    assert_eq!(find_contracts(&two), vec![(0, 1, 26), (28, 29, 55)]);
    let none: Vec<char> = "_WAT_CONTRACT: &str = r##;".chars().collect();
    assert_eq!(find_contracts(&none), Vec::new());
}

#[test]
fn scan_needs_an_identifier_before_the_marker() {
    let mut scanner = WatContractsScanner::new_empty();
    assert!(!scanner.scan_from_text(" _WAT_CONTRACT: &str = r#\"(module)\"#;"));
    assert_eq!(scanner.len(), 0);
}

#[test]
fn scan_needs_a_body_and_a_terminator() {
    let mut scanner = WatContractsScanner::new_empty();
    assert!(!scanner.scan_from_text("A_WAT_CONTRACT: &str = r##;"));
    assert!(!scanner.scan_from_text("A_WAT_CONTRACT: &str = r#\"(module)\""));
    assert!(scanner.scan_from_text("A_WAT_CONTRACT: &str = r#x#;"));
    assert_eq!(scanner.len(), 1);
    let contract = scanner.find_by_name("a".to_string()).expect("a is registered");
    assert_eq!(contract.code(), "x");
    assert_eq!(contract.module_text(), None);
}

#[test]
fn scan_lowercases_the_identifier() {
    let mut scanner = WatContractsScanner::new_empty();
    assert!(scanner.scan_from_text("static My_Flipper2_WAT_CONTRACT: &str = r#\"(module)\"#;"));
    assert!(scanner.find_by_name("my_flipper2".to_string()).is_some());
    assert!(scanner.find_by_name("My_Flipper2".to_string()).is_none());
}

#[test]
fn scan_takes_word_characters_beyond_ascii() {
    let mut scanner = WatContractsScanner::new_empty();
    assert!(scanner.scan_from_text("static ÉCOLE_WAT_CONTRACT: &str = r#\"(module)\"#;"));
    let contract = scanner.find_by_name("école".to_string()).expect("école is registered");
    assert_eq!(contract.code(), "\"(module)\"");
}

#[test]
fn scan_finds_every_contract_of_a_text() {
    let mut scanner = WatContractsScanner::new_empty();
    let text = "A_WAT_CONTRACT: &str = r#\"(module)\"#; B_WAT_CONTRACT: &str = r#\"(module)\"#;";
    assert!(scanner.scan_from_text(text));
    assert_eq!(scanner.len(), 2);
    let first = scanner.get(0).expect("the first is held");
    assert_eq!(first.name(), "a");
    assert_eq!(first.code(), "\"(module)\"");
    let second = scanner.get(1).expect("the second is held");
    assert_eq!(second.name(), "b");
    assert_eq!(second.code(), "\"(module)\"");
    assert!(scanner.get(2).is_none());
    assert_eq!(scanner.find_by_name("b".to_string()).map(|c| c.code()), Some("\"(module)\""));
    let chars: Vec<char> = text.chars().collect();
    let places = find_contracts(&chars);
    assert_eq!(places.len(), 2);
    assert!(places[0].2 < places[1].0);
}

#[test]
fn scan_body_ends_at_the_first_terminator() {
    let mut scanner = WatContractsScanner::new_empty();
    assert!(scanner.scan_from_text("A_WAT_CONTRACT: &str = r#\"x\"#; let y = 1;#; z"));
    assert_eq!(scanner.len(), 1);
    assert_eq!(scanner.find_by_name("a".to_string()).unwrap().code(), "\"x\"");
    let mut scanner = WatContractsScanner::new_empty();
    assert!(scanner.scan_from_text("A_WAT_CONTRACT: &str = r###;"));
    assert_eq!(scanner.find_by_name("a".to_string()).unwrap().code(), "#");
}

#[test]
fn scan_keeps_contracts_in_the_order_of_the_text() {
    let mut scanner = WatContractsScanner::new_empty();
    scanner.add_contract("twice", "\"held\"");
    let text = "TWICE_WAT_CONTRACT: &str = r#\"first\"#;\nOther_WAT_CONTRACT: &str = r#\"second\"#;\ntwice_WAT_CONTRACT: &str = r#\"third\"#;\n";
    assert!(scanner.scan_from_text(text));
    assert_eq!(scanner.len(), 4);
    assert_eq!(scanner.find_by_name("twice".to_string()).unwrap().code(), "\"held\"");
    assert_eq!(scanner.find_by_name("other".to_string()).unwrap().code(), "\"second\"");
    let mut fresh = WatContractsScanner::new_empty();
    assert!(fresh.scan_from_text(text));
    assert_eq!(fresh.len(), 3);
    assert_eq!(fresh.find_by_name("twice".to_string()).unwrap().code(), "\"first\"");
}

#[test]
fn scan_says_what_it_found_not_what_is_held() {
    let mut scanner = WatContractsScanner::new_empty();
    scanner.add_contract("held", "\"(module)\"");
    assert!(!scanner.scan_from_text("nothing here"));
    assert_eq!(scanner.len(), 1);
}

#[test]
fn lookup_takes_the_first_of_a_name() {
    let mut scanner = WatContractsScanner::new_empty();
    scanner.add_contract("twice", "\"first\"");
    scanner.add_contract("other", "\"second\"");
    scanner.add_contract("twice", "\"third\"");
    assert_eq!(scanner.len(), 3);
    assert_eq!(scanner.find_by_name("twice".to_string()).map(|c| c.code()), Some("\"first\""));
    assert_eq!(scanner.find_by_name("other".to_string()).map(|c| c.code()), Some("\"second\""));
    assert!(scanner.find_by_name("absent".to_string()).is_none());
    assert!(scanner.find_by_name("Twice".to_string()).is_none());
}

#[test]
fn module_text_drops_one_byte_at_each_end() {
    let mut scanner = WatContractsScanner::new_empty();
    scanner.add_contract("two", "\"\"");
    scanner.add_contract("one", "\"");
    scanner.add_contract("none", "");
    scanner.add_contract("five", "abcde");
    assert_eq!(scanner.find_by_name("two".to_string()).unwrap().module_text(), Some(vec![]));
    assert_eq!(scanner.find_by_name("one".to_string()).unwrap().module_text(), None);
    assert_eq!(scanner.find_by_name("none".to_string()).unwrap().module_text(), None);
    assert_eq!(
        scanner.find_by_name("five".to_string()).unwrap().module_text(),
        Some(b"bcd".to_vec())
    );
}

fn by_regular_expression(text: &str) -> Vec<(String, String)> {
    let pattern = regex::Regex::new(
        r"(?P<compose_name>[\w]+)_WAT_CONTRACT: &str = r#(?P<wat_contract>[\s\S]+?)#;",
    )
    .expect("the pattern is one");
    pattern
        .captures_iter(text)
        .map(|caps| {
            (
                caps.name("compose_name").map(|m| m.as_str().to_lowercase()).unwrap(),
                caps.name("wat_contract").map(|m| m.as_str().to_string()).unwrap(),
            )
        })
        .collect()
}

fn by_scanner(text: &str) -> Vec<(String, String)> {
    let mut scanner = WatContractsScanner::new_empty();
    let found = scanner.scan_from_text(text);
    assert_eq!(found, scanner.len() > 0);
    let chars: Vec<char> = text.chars().collect();
    let places = find_contracts(&chars);
    assert_eq!(places.len(), scanner.len());
    places
        .iter()
        .enumerate()
        .map(|(i, (start, mark, end))| {
            let contract = scanner.get(i).expect("one contract for each match");
            let name: String = chars[*start..*mark].iter().collect();
            let code: String = chars[*mark + 24..*end].iter().collect();
            assert_eq!(contract.name(), name.to_lowercase());
            assert_eq!(contract.code(), code);
            (contract.name().to_string(), contract.code().to_string())
        })
        .collect()
}

#[test]
fn scan_agrees_with_the_convention_as_a_regular_expression() {
    let texts = [
        "",
        "#;",
        "_WAT_CONTRACT: &str = r#",
        "FOO_WAT_CONTRACT: &str = r#\"(module (func (export \"call\")))\"#;",
        "static EXAMPLE_WAT_CONTRACT: &str = r#\"\n(module\n  (func (export \"call\"))\n)\n\"#;\n",
        "A_WAT_CONTRACT: &str = r#\"(module)\"#;\nB_WAT_CONTRACT: &str = r#\"(module)\"#;\n",
        "A_WAT_CONTRACT: &str = r##;",
        "A_WAT_CONTRACT: &str = r#x#;",
        "A_WAT_CONTRACT: &str = r###;",
        "A_WAT_CONTRACT: &str = r#x#;#;#;",
        " _WAT_CONTRACT: &str = r#x#;",
        "__WAT_CONTRACT: &str = r#x#;",
        "A_WAT_CONTRACT_WAT_CONTRACT: &str = r#x#;",
        "A_WAT_CONTRACT: &str = r#_WAT_CONTRACT: &str = r#x#;",
        "-_WAT_CONTRACT: &str = r#x#; B_WAT_CONTRACT: &str = r#y#;",
        "x #; A_WAT_CONTRACT: &str = r#y",
        "x #; A_WAT_CONTRACT: &str = r#y#",
        "a.b-c9_WAT_CONTRACT: &str = r#\"z\"#; tail",
        "static ÉCOLE_WAT_CONTRACT: &str = r#\"(module)\"#;",
        "ǅ_ẞ_İ_WAT_CONTRACT: &str = r#\"Σ\"#;",
        "名前_WAT_CONTRACT: &str = r#\"本体\"#;#",
        "a\u{301}_WAT_CONTRACT: &str = r#\u{200d}#;",
        "é€😀_WAT_CONTRACT: &str = r#😀#;",
        "😀_WAT_CONTRACT: &str = r#x#;",
        "A_wat_contract: &str = r#x#;",
        "A_WAT_CONTRACT: &str = r#x# ;",
        "A_WAT_CONTRACT:  &str = r#x#;",
        "_WAT_CONTRACT: &str = r#A_WAT_CONTRACT: &str = r#",
        "Z_WAT_CONTRAC_WAT_CONTRACT: &str = r#\n#;",
        "A_WAT_CONTRACT: &str = r#\"(module)\"#; B_WAT_CONTRACT: &str = r#\"(module)\"#;",
        "A_WAT_CONTRACT: &str = r#x#;B_WAT_CONTRACT: &str = r#y#;C_WAT_CONTRACT: &str = r#z#;",
        "A_WAT_CONTRACT: &str = r#x#;_WAT_CONTRACT: &str = r#y#;",
        "A_WAT_CONTRACT: &str = r#x#;B_WAT_CONTRACT: &str = r##;C_WAT_CONTRACT: &str = r#z#;",
        "A_WAT_CONTRACT: &str = r#B_WAT_CONTRACT: &str = r#y#;#;",
        "A_WAT_CONTRACT: &str = r#x#;AB_WAT_CONTRACT: &str = r#y",
        "éA_WAT_CONTRACT: &str = r#é#;éB_WAT_CONTRACT: &str = r#😀😀#;#;",
        "A_WAT_CONTRACT: &str = r#x#;;;#;B_WAT_CONTRACT: &str = r#;#;",
    ];
    for text in texts {
        assert_eq!(by_scanner(text), by_regular_expression(text), "on {:?}", text);
    }
}
