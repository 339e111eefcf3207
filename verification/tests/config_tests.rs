use todo_cli::config::{escape, Config, ConfigError};

#[test]
fn path_key_is_the_path() {
    let config = Config::from_toml("path = \"/tmp/t.txt\"").unwrap();
    assert_eq!(config.path, "/tmp/t.txt");
}

#[test]
fn literal_string_path_is_taken_as_written() {
    let config = Config::from_toml("path = '/home/me/todo.txt'\n").unwrap();
    assert_eq!(config.path, "/home/me/todo.txt");
}

#[test]
fn other_keys_do_not_matter() {
    let text = "title = \"mine\"\npath = \"a/b.txt\"\n\n[colors]\nfront = \"black\"\n";
    assert_eq!(Config::from_toml(text), Ok(Config { path: String::from("a/b.txt") }));
}

#[test]
fn empty_path_is_a_path() {
    assert_eq!(Config::from_toml("path = \"\""), Ok(Config { path: String::new() }));
}

#[test]
fn document_without_path_is_refused() {
    assert_eq!(Config::from_toml("other = \"x\""), Err(ConfigError::MissingPath));
    assert_eq!(Config::from_toml(""), Err(ConfigError::MissingPath));
}

#[test]
fn path_in_a_table_is_not_the_path() {
    assert_eq!(Config::from_toml("[files]\npath = \"x\"\n"), Err(ConfigError::MissingPath));
}

#[test]
fn path_that_is_no_string_is_refused() {
    assert_eq!(Config::from_toml("path = 3"), Err(ConfigError::PathNotText));
    assert_eq!(Config::from_toml("path = [\"a\"]"), Err(ConfigError::PathNotText));
}

#[test]
fn text_that_is_no_toml_is_refused() {
    assert_eq!(Config::from_toml("path = "), Err(ConfigError::Syntax));
    assert_eq!(Config::from_toml("path = 'a'\npath = 'b'"), Err(ConfigError::Syntax));
}

#[test]
fn entry_decides_the_configuration() {
    assert_eq!(
        Config::from_entry(Some(Some(String::from("/tmp/t.txt")))),
        Ok(Config { path: String::from("/tmp/t.txt") })
    );
    assert_eq!(Config::from_entry(Some(None)), Err(ConfigError::PathNotText));
    assert_eq!(Config::from_entry(None), Err(ConfigError::MissingPath));
}

#[test]
fn default_places_are_in_the_home_directory() {
    assert_eq!(Config::default_path("/home/me"), "/home/me/.todo.toml");
    assert_eq!(Config::default_task_path("/home/me"), "/home/me/todo.txt");
    assert_eq!(Config::default_path(""), "/.todo.toml");
}

#[test]
fn fresh_text_sets_path() {
    assert_eq!(Config::fresh_text("/home/me"), "path = \"/home/me/todo.txt\"");
}

#[test]
fn fresh_text_reads_back_as_the_task_file_at_home() {
    let text = Config::fresh_text("/home/me");
    let config = Config::from_toml(&text).unwrap();
    assert_eq!(config.path, Config::default_task_path("/home/me"));
}

#[test]
fn fresh_text_for_a_home_with_a_quote_reads_back() {
    let text = Config::fresh_text("/home/o'neil");
    assert_eq!(text, "path = \"/home/o'neil/todo.txt\"");
    assert_eq!(Config::from_toml(&text), Ok(Config { path: String::from("/home/o'neil/todo.txt") }));
}

#[test]
fn fresh_text_reads_back_for_awkward_homes() {
    let homes = [
        "",
        "/",
        "/home/say \"hi\"",
        "C:\\Users\\me",
        "/tab\there",
        "/line\nfeed\r",
        "/bell\u{7}/del\u{7f}/nul\u{0}/unit\u{1f}",
        "/caf\u{e9}/\u{65e5}\u{672c}/\u{1f600}",
        "/a = 'b' # c",
        "/[x]/{y}",
    ];
    for home in homes {
        let text = Config::fresh_text(home);
        assert_eq!(
            Config::from_toml(&text),
            Ok(Config { path: Config::default_task_path(home) }),
            "home {:?}",
            home
        );
        assert_eq!(Config::sound_fresh_text(home), Some(text));
    }
}

#[test]
fn escaping_leaves_plain_text_alone() {
    assert_eq!(escape(""), "");
    assert_eq!(escape("/home/me it's [fine] {too} caf\u{e9}"), "/home/me it's [fine] {too} caf\u{e9}");
}

#[test]
fn escaping_marks_quotes_and_backslashes() {
    assert_eq!(escape("a\"b"), "a\\\"b");
    assert_eq!(escape("a\\b"), "a\\\\b");
    assert_eq!(escape("\\\""), "\\\\\\\"");
}

#[test]
fn escaping_spells_out_control_characters() {
    assert_eq!(escape("\u{0}"), "\\u0000");
    assert_eq!(escape("\t"), "\\u0009");
    assert_eq!(escape("\n"), "\\u000a");
    assert_eq!(escape("\r"), "\\u000d");
    assert_eq!(escape("\u{1f}"), "\\u001f");
    assert_eq!(escape("\u{7f}"), "\\u007f");
    assert_eq!(escape(" "), " ");
    assert_eq!(escape("\u{80}"), "\u{80}");
    assert_eq!(escape("a\u{1b}[0m"), "a\\u001b[0m");
}

#[test]
fn nesting_up_to_the_limit_is_read() {
    let path = Ok(Config { path: String::from("p") });
    let text = format!("path = \"p\"\ndeep = {}{}\n", "[".repeat(128), "]".repeat(128));
    assert_eq!(Config::from_toml(&text), path);
    let text = format!("path = \"p\"\n{} = 1\n", vec!["a"; 129].join("."));
    assert_eq!(Config::from_toml(&text), path);
    let text = format!("path = \"p\"\n[{}]\nb = 2\n", vec!["a"; 128].join("."));
    assert_eq!(Config::from_toml(&text), path);
    let text = format!("path = \"p\"\n[[{}]]\nb = 2\n", vec!["a"; 127].join("."));
    assert_eq!(Config::from_toml(&text), path);
    let text = format!(
        "path = \"p\"\n[{}]\n{} = {}{{ c.d.e = 1 }}{}\n",
        vec!["a"; 40].join("."),
        vec!["b"; 41].join("."),
        "[".repeat(24),
        "]".repeat(24),
    );
    assert_eq!(Config::from_toml(&text), path);
}

#[test]
fn deeper_nesting_is_refused_unread() {
    let text = format!("path = \"p\"\ndeep = {}{}\n", "[".repeat(129), "]".repeat(129));
    assert_eq!(Config::from_toml(&text), Err(ConfigError::TooNested));
    let text = format!("path = \"p\"\n{} = 1\n", vec!["a"; 130].join("."));
    assert_eq!(Config::from_toml(&text), Err(ConfigError::TooNested));
    let text = format!("path = \"p\"\n[{}]\n", vec!["a"; 129].join("."));
    assert_eq!(Config::from_toml(&text), Err(ConfigError::TooNested));
    let text = format!("path = \"p\"\n[{}]\nb = [[1]]\n", vec!["a"; 127].join("."));
    assert_eq!(Config::from_toml(&text), Err(ConfigError::TooNested));
}

#[test]
fn endless_nesting_is_refused_unread() {
    assert_eq!(Config::from_toml(&"[".repeat(200_000)), Err(ConfigError::TooNested));
    assert_eq!(Config::from_toml(&"a = {b = ".repeat(100_000)), Err(ConfigError::TooNested));
    let text = format!("{} = 1", vec!["a"; 100_000].join("."));
    assert_eq!(Config::from_toml(&text), Err(ConfigError::TooNested));
    let text = format!("[{}]", vec!["a"; 100_000].join("."));
    assert_eq!(Config::from_toml(&text), Err(ConfigError::TooNested));
    let text = format!("[[{}]]", vec!["a"; 100_000].join(" . "));
    assert_eq!(Config::from_toml(&text), Err(ConfigError::TooNested));
}

#[test]
fn brackets_and_periods_that_do_not_nest_are_read() {
    let path = Ok(Config { path: String::from("p") });
    let text = format!("path = \"p\"\nflat = [{}]\n", vec!["[1.5]"; 500].join(", "));
    assert_eq!(Config::from_toml(&text), path);
    let text = format!("path = \"p\"\nflat = [{}]\n", vec!["{ a.b = 1 }"; 500].join(",\n"));
    assert_eq!(Config::from_toml(&text), path);
    let mut text = String::from("path = \"p\"\n");
    for i in 0..500 {
        text.push_str(&format!("[t{}.u]\nv.w = [1.5, 2.5]\n[[l{}]]\nx = {{ y = [] }}\n", i, i));
    }
    assert_eq!(Config::from_toml(&text), path);
}

#[test]
fn brackets_in_strings_and_comments_do_not_count() {
    let many = "[{.".repeat(200);
    let text = format!("path = \"{}\"", many);
    assert_eq!(Config::from_toml(&text), Ok(Config { path: many.clone() }));
    let text = format!("path = '{}'", many);
    assert_eq!(Config::from_toml(&text), Ok(Config { path: many.clone() }));
    let text = format!("path = \"\"\"\n{}\"\" \\\" {}\"\"\"", many, many);
    assert_eq!(
        Config::from_toml(&text),
        Ok(Config { path: format!("{}\"\" \" {}", many, many) })
    );
    let text = format!("path = '''{}'' {}'''", many, many);
    assert_eq!(Config::from_toml(&text), Ok(Config { path: format!("{}'' {}", many, many) }));
    let text = format!("# {}\npath = \"p\" # {}\n# {}", many, many, many);
    assert_eq!(Config::from_toml(&text), Ok(Config { path: String::from("p") }));
    let text = format!("\"{}\" = 1\npath = \"a\\\\\"\nq = \"\\\"{}\"", many, many);
    assert_eq!(Config::from_toml(&text), Ok(Config { path: String::from("a\\") }));
    let text = format!("path = \"\"\nempty = ''\nlater = \"{}\"", many);
    assert_eq!(Config::from_toml(&text), Ok(Config { path: String::new() }));
}

#[test]
fn nesting_after_a_string_or_comment_counts() {
    let deep = format!("{}{}", "[".repeat(129), "]".repeat(129));
    let starts = [
        "a = \"x\"",
        "a = 'x'",
        "a = \"\"",
        "a = ''",
        "# note",
        "a = \"\"\"x\"\"\"",
        "a = '''x'''",
        "a = \"\\\\\"",
        "a = \"\"\"\\\"\"\"\"",
    ];
    for before in starts {
        let text = format!("{}\npath = \"p\"\ndeep = {}\n", before, deep);
        assert_eq!(Config::from_toml(&text), Err(ConfigError::TooNested), "{}", before);
    }
}

#[test]
fn fresh_text_for_a_home_full_of_brackets_is_sound() {
    let home = format!("/home/{}", "[{.".repeat(500));
    assert_eq!(Config::sound_fresh_text(&home), Some(Config::fresh_text(&home)));
    let text = Config::fresh_text(&home);
    assert_eq!(Config::from_toml(&text), Ok(Config { path: format!("{}/todo.txt", home) }));
}

#[test]
fn arrays_of_tables_within_one_another_are_read_up_to_the_limit() {
    let mut text = String::from("path = \"p\"\n");
    for parts in 1..=127 {
        text.push_str(&format!("[[{}]]\nx = 1\n", vec!["a"; parts].join(".")));
    }
    assert_eq!(Config::from_toml(&text), Ok(Config { path: String::from("p") }));
    text.push_str(&format!("[[{}]]\n", vec!["a"; 128].join(".")));
    assert_eq!(Config::from_toml(&text), Err(ConfigError::TooNested));
}

#[test]
fn every_kind_of_nesting_at_once_is_read_up_to_the_limit() {
    let mut text = String::from("path = \"p\"\n");
    for parts in 1..=60 {
        text.push_str(&format!("[[{}]]\n", vec!["a"; parts].join(".")));
    }
    let inner = format!("{}1{}", "[{ d.e = ".repeat(11), " }]".repeat(11));
    text.push_str(&format!("{} = {}\n", vec!["b"; 35].join("."), inner));
    assert_eq!(Config::from_toml(&text), Ok(Config { path: String::from("p") }));
    text.push_str(&format!("{} = [1]\n", vec!["e"; 68].join(".")));
    assert_eq!(Config::from_toml(&text), Err(ConfigError::TooNested));
}
