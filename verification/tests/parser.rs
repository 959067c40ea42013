use hello::parser::{search, search_case_insensitive, Config};

#[test]
fn case_sensitive() {
    let query = "duct";
    let contents = "\
        Rust:
        safe, fast, productive.
        Pick three.";
    assert_eq!(vec!["safe, fast, productive."], search(query, contents));
}

#[test]
fn case_insensitive() {
    let query = "rUsT";
    let contents = "\
        Rust:
        safe, fast, productive.
        Pick three.
        Trust me.";
    assert_eq!(vec!["Rust:", "Trust me."],
        search_case_insensitive(query, contents)
    );
}

#[test]
fn one_result() {
    let query = "duct";
    let contents = "\
        Rust:
        safe, fast, productive.
        Pick three.";

    assert_eq!(vec!["safe, fast, productive."], search(query, contents));
}

#[test]
fn search_minds_the_case() {
    let contents = "Rust:\nsafe, fast, productive.\nTrust me.\nDuct tape.";
    assert_eq!(search("rust", contents), vec!["Trust me."]);
    assert_eq!(search("Duct", contents), vec!["Duct tape."]);
    assert_eq!(search("nothing", contents), Vec::<&str>::new());
}

#[test]
fn empty_query_reports_every_line() {
    let contents = "  one \n\ntwo\r\n three\n";
    assert_eq!(search("", contents), vec!["one", "", "two", "three"]);
    assert_eq!(search_case_insensitive("", contents), vec!["one", "", "two", "three"]);
    assert_eq!(search("", ""), Vec::<&str>::new());
}

#[test]
fn search_agrees_with_std_on_odd_texts() {
    let texts = [
        "",
        "\n",
        "\r\n",
        "a\rb\nc\r",
        "x\r\r\ny",
        "\u{a0}wide blanks\u{3000}\n\tTab and \u{2003}em\u{2003}\n",
        "\u{3a3}\u{391}\u{3a3}\nsigma \u{3c3}\u{3b1}\u{3c2}\n",
        "no newline at end",
        "\n\n\n",
    ];
    let queries = ["", "a", "b", "blank", "\u{3c3}", "\r", " ", "\n"];
    for contents in texts {
        for query in queries {
            let mut expected = Vec::new();
            for line in contents.lines() {
                if line.contains(query) {
                    expected.push(line.trim());
                }
            }
            assert_eq!(search(query, contents), expected);
            let lowered = query.to_lowercase();
            let mut expected = Vec::new();
            for line in contents.lines() {
                if line.to_lowercase().contains(&lowered) {
                    expected.push(line.trim());
                }
            }
            assert_eq!(search_case_insensitive(query, contents), expected);
        }
    }
}

fn arguments(words: &[&str]) -> Vec<String> {
    words.iter().map(|word| word.to_string()).collect()
}

#[test]
fn parse_config_reads_query_and_file() {
    let args = arguments(&["minigrep", "duct", "poem.txt"]);
    let config = match Config::parse_config(&args, false) {
        Ok(config) => config,
        Err(message) => panic!("{}", message),
    };
    assert_eq!(config.query, "duct");
    assert_eq!(config.file_path, "poem.txt");
    assert!(!config.ignore_case);
    let args = arguments(&["minigrep", "duct", "poem.txt", "more"]);
    let config = match Config::parse_config(&args, true) {
        Ok(config) => config,
        Err(message) => panic!("{}", message),
    };
    assert_eq!(config.query, "duct");
    assert_eq!(config.file_path, "poem.txt");
    assert!(config.ignore_case);
}

#[test]
fn parse_config_wants_three_arguments() {
    for words in [&[][..], &["minigrep"][..], &["minigrep", "duct"][..]] {
        let args = arguments(words);
        match Config::parse_config(&args, false) {
            Ok(_) => panic!("accepted {} arguments", words.len()),
            Err(message) => assert_eq!(message, "Not enough arguments"),
        }
    }
}

#[test]
fn run_follows_the_settings() {
    let contents = "Rust:\nsafe, fast, productive.\nTrust me.";
    let exact = Config {
        query: "rust".to_string(),
        file_path: "poem.txt".to_string(),
        ignore_case: false,
    };
    assert_eq!(Config::run(&exact, contents), vec!["Trust me."]);
    let loose = Config {
        query: "rust".to_string(),
        file_path: "poem.txt".to_string(),
        ignore_case: true,
    };
    assert_eq!(Config::run(&loose, contents), vec!["Rust:", "Trust me."]);
}
