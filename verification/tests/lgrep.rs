use primer::lgrep::{search, Config};

fn arguments(words: &[&str]) -> std::vec::IntoIter<String> {
    let owned: Vec<String> = words.iter().map(|word| String::from(*word)).collect();
    owned.into_iter()
}

#[test]
fn one_result() {
    let query = "tasi";
    let content = "some text here\nmore tasi there\nand some writting here";
    assert_eq!(vec!["more tasi there"], search(content, query));
}

#[test]
fn search_finds_nothing_where_no_line_holds_the_query() {
    let content = "some text here\nmore tasi there";
    assert!(search(content, "Tasi").is_empty());
    assert!(search("", "tasi").is_empty());
    assert!(search("", "").is_empty());
}

#[test]
fn search_keeps_the_order_of_the_lines() {
    let content = "one fish\ntwo fish\nred bird\nblue fish";
    assert_eq!(search(content, "fish"), vec!["one fish", "two fish", "blue fish"]);
}

#[test]
fn search_does_not_match_across_lines() {
    assert!(search("ab\ncd", "b\nc").is_empty());
    assert!(search("ab\ncd", "bc").is_empty());
}

#[test]
fn search_drops_the_line_endings() {
    assert_eq!(search("first a\r\nsecond a\r\n", "a"), vec!["first a", "second a"]);
    assert_eq!(search("first a\nsecond a\n", "a"), vec!["first a", "second a"]);
    assert_eq!(search("bare\rreturn\n", "return"), vec!["bare\rreturn"]);
    assert_eq!(search("last\r", "last"), vec!["last\r"]);
    assert!(search("line\r\n", "\r").is_empty());
}

#[test]
fn the_empty_query_is_in_every_line() {
    assert_eq!(search("a\n\nb", ""), vec!["a", "", "b"]);
    assert_eq!(search("\n", ""), vec![""]);
    assert_eq!(search("\n\n", ""), vec!["", ""]);
}

#[test]
fn search_agrees_with_the_standard_library() {
    let texts = [
        "",
        "\n",
        "a",
        "a\n",
        "\na",
        "a\r\n\r\nb\r",
        "tasi\n tasi\ntas\ni\n\ntasitasi",
        "caf\u{e9} au lait\nth\u{e9} vert\n\u{1f63b} caf\u{e9}",
        "\r\n\r\n",
        "x\n\n\ny",
    ];
    let queries = ["", "a", "tasi", "\u{e9}", "caf\u{e9}", "\r", "i\n", "tasitasi", "y"];
    for text in texts {
        for query in queries {
            let expected: Vec<&str> = text.lines().filter(|line| line.contains(query)).collect();
            assert_eq!(search(text, query), expected, "text {:?}, query {:?}", text, query);
        }
    }
}

#[test]
fn build_takes_the_path_and_the_query() {
    let config = Config::build(arguments(&["lgrep", "poem.txt", "tasi"]));
    match config {
        Ok(config) => {
            assert_eq!(config.file_path, "poem.txt");
            assert_eq!(config.query, "tasi");
        }
        Err(message) => panic!("unexpected error: {}", message),
    }
}

#[test]
fn build_ignores_what_follows_the_query() {
    let config = Config::build(arguments(&["lgrep", "poem.txt", "tasi", "more", "words"]));
    match config {
        Ok(config) => {
            assert_eq!(config.file_path, "poem.txt");
            assert_eq!(config.query, "tasi");
        }
        Err(message) => panic!("unexpected error: {}", message),
    }
}

#[test]
fn build_asks_for_a_file_path() {
    assert_eq!(Config::build(arguments(&["lgrep"])).err(), Some("Didn't get a file path"));
    assert_eq!(Config::build(arguments(&[])).err(), Some("Didn't get a file path"));
}

#[test]
fn build_asks_for_a_query() {
    assert_eq!(Config::build(arguments(&["lgrep", "poem.txt"])).err(), Some("Didn't get a query"));
}
