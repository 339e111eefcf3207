use todo_cli::nesting::{too_deep, NESTING_LIMIT};

fn nested(levels: usize) -> String {
    format!("a = {}{}", "[".repeat(levels), "]".repeat(levels))
}

#[test]
fn the_limit_is_what_it_is() {
    assert_eq!(NESTING_LIMIT, 128);
}

#[test]
fn flat_text_is_not_deep() {
    assert!(!too_deep(""));
    assert!(!too_deep("path = \"/tmp/t.txt\"\n"));
    assert!(!too_deep(&"a = [1.5, 2.5]\n[t.u]\nb.c = { d.e = 1 }\n".repeat(1000)));
}

#[test]
fn brackets_nest() {
    assert!(!too_deep(&nested(128)));
    assert!(too_deep(&nested(129)));
    assert!(!too_deep(&format!("a = {}", "{b = ".repeat(128))));
    assert!(too_deep(&format!("a = {}", "{b = ".repeat(129))));
    assert!(too_deep(&format!("a = {}", "[{b = ".repeat(65))));
    assert!(!too_deep(&format!("{}\n{}\n", nested(128), nested(128))));
}

#[test]
fn closed_brackets_do_not_nest() {
    assert!(!too_deep(&format!("a = [{}]", vec!["[]"; 1000].join(","))));
    assert!(!too_deep(&format!("a = {}", "[[[]]],".repeat(1000))));
}

#[test]
fn key_parts_nest() {
    assert!(!too_deep(&format!("{} = 1", vec!["a"; 129].join("."))));
    assert!(too_deep(&format!("{} = 1", vec!["a"; 130].join("."))));
    assert!(too_deep(&format!("{} = 1", vec!["\"a.b\""; 130].join(" . "))));
    assert!(!too_deep(&format!("{} = 1", vec!["\"a.b.c.d\""; 100].join("."))));
    assert!(!too_deep(&format!("{} = 1\n", vec!["a"; 100].join(".")).repeat(50)));
}

#[test]
fn key_parts_nest_with_the_value() {
    assert!(!too_deep(&format!("{} = {}", vec!["a"; 65].join("."), "[".repeat(64))));
    assert!(too_deep(&format!("{} = {}", vec!["a"; 65].join("."), "[".repeat(65))));
    assert!(too_deep(&format!("a = {{ {} = {{ {} = 1", vec!["b"; 64].join("."), vec!["c"; 65].join("."))));
    assert!(!too_deep(&format!("a = {{ {} = 1, {} = 1 }}", vec!["b"; 100].join("."), vec!["c"; 100].join("."))));
}

#[test]
fn header_parts_nest_what_follows() {
    assert!(!too_deep(&format!("[{}]\n", vec!["a"; 128].join("."))));
    assert!(too_deep(&format!("[{}]\n", vec!["a"; 129].join("."))));
    assert!(too_deep(&format!("[[{}]]\n", vec!["a"; 128].join("."))));
    assert!(!too_deep(&format!("[{}]\nb = 1\n", vec!["a"; 128].join("."))));
    assert!(too_deep(&format!("[{}]\nb = []\n", vec!["a"; 128].join("."))));
    assert!(too_deep(&format!("[{}]\nb.c = 1\n", vec!["a"; 128].join("."))));
    assert!(too_deep(&format!("[{}]\n\n# x\nb = 1\nc = {}", vec!["a"; 100].join("."), "[".repeat(29))));
    assert!(!too_deep(&format!("[{}]\n[b]\nc = {}", vec!["a"; 100].join("."), "[".repeat(29))));
}

#[test]
fn strings_and_comments_hold_no_structure() {
    let many = "[{.".repeat(1000);
    assert!(!too_deep(&format!("a = \"{}\"", many)));
    assert!(!too_deep(&format!("a = '{}'", many)));
    assert!(!too_deep(&format!("a = \"\"\"{}\n{}\"\"\"", many, many)));
    assert!(!too_deep(&format!("a = '''{}\n{}'''", many, many)));
    assert!(!too_deep(&format!("# {}\na = 1 # {}", many, many)));
    assert!(!too_deep(&format!("a = \"\\\"{}\"", many)));
    assert!(!too_deep(&format!("a = \"\"\"\"\"{}\"\"\"", many)));
}

#[test]
fn strings_and_comments_end() {
    let many = "[".repeat(1000);
    assert!(too_deep(&format!("a = \"x\"{}", many)));
    assert!(too_deep(&format!("a = \"\"{}", many)));
    assert!(too_deep(&format!("a = ''{}", many)));
    assert!(too_deep(&format!("a = \"\\\\\"{}", many)));
    assert!(too_deep(&format!("a = \"x\n{}", many)));
    assert!(too_deep(&format!("a = 'x\n{}", many)));
    assert!(too_deep(&format!("a = 'x\\'{}", many)));
    assert!(too_deep(&format!("# x\n{}", many)));
    assert!(too_deep(&format!("# x\r\n{}", many)));
    assert!(too_deep(&format!("# x\u{1}{}", many)));
    assert!(!too_deep(&format!("# x\t{}", many)));
    assert!(too_deep(&format!("a = \"\"\"x\"\"\"{}", many)));
    assert!(too_deep(&format!("a = '''x'''{}", many)));
    assert!(too_deep(&format!("a = \"\"\"x\"\"y\"\"\"{}", many)));
}
