use web_server::minigrep::{search, search_case_insensitive, select_lines, Config};

#[test]
fn one_result() {
    let query = "duct";
    let contents = "\
        Rust:
        safe, fast, productive.
        Pick three.";

    assert_eq!(vec!["safe, fast, productive."], search(query, contents));
}

#[test]
fn case_insensitive() {
    let query = "DUCT";
    let contents = "\
        Rust:
        safe, fast, productive.
        Pick three.";

    assert_eq!(true, {
        let mut result: bool = false;
        for r in search_case_insensitive(query, contents) {
            if r.contains("safe, fast, productive.") {
                result = true;
            }
        }
        result
    });
}

#[test]
fn search_trims_each_line_and_keeps_order() {
    let contents = "  rust one \n\tnothing\nrusty two\n";
    assert_eq!(search("rust", contents), vec!["rust one", "rusty two"]);
    assert_eq!(search("Rust", contents), Vec::<&str>::new());
    assert_eq!(search("", "a\nb"), vec!["a", "b"]);
    assert_eq!(search("x", ""), Vec::<&str>::new());
}

#[test]
fn case_insensitive_search_keeps_lines_as_written() {
    let contents = "Rust:\r\ntrust me.\nno\n";
    assert_eq!(search_case_insensitive("rUsT", contents), vec!["Rust:", "trust me."]);
    assert_eq!(search_case_insensitive("NO", contents), vec!["no"]);
    assert_eq!(search_case_insensitive("a", ""), Vec::<&str>::new());
}

#[test]
fn config_needs_a_query_and_a_file() {
    let args: Vec<String> = vec!["grep".to_string(), "needle".to_string()];
    assert!(matches!(Config::new(&args, false), Err("not enough arguments")));
    let args: Vec<String> = vec![
        "grep".to_string(),
        "needle".to_string(),
        "hay.txt".to_string(),
    ];
    match Config::new(&args, true) {
        Ok(c) => {
            assert_eq!(c.query, "needle");
            assert_eq!(c.filename, "hay.txt");
            assert!(c.case_insensitive);
        }
        Err(e) => panic!("refused: {}", e),
    }
}

#[test]
fn lines_are_selected_by_their_keys() {
    let lines = vec!["first", "second", "third"];
    let keys = vec!["XY".to_string(), "Z".to_string(), "AXYB".to_string()];
    assert_eq!(select_lines(&lines, &keys, "XY"), vec!["first", "third"]);
    assert_eq!(select_lines(&lines, &keys, "first"), Vec::<&str>::new());
}
