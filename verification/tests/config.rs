use minigrep::{Config, ConfigError, CASE_INSENSITIVE_VARIABLE};

fn arguments(words: &[&str]) -> Vec<String> {
    words.iter().map(|word| word.to_string()).collect()
}

#[test]
fn not_enough_args() {
    let args = [String::new(), String::new()];
    let config = Config::new(&args, false);
    assert_eq!(config.map_err(|e| e.message()), Err("not enough arguments"))
}

#[test]
fn correct_config() {
    let query = String::from("plerps");
    let filename = String::from("plerps.txt");
    let args = [String::new(), query, filename];

    let test_config = Config {
        query: "plerps".to_owned(),
        filename: "plerps.txt".to_owned(),
        case_sensitive: true,
    };

    let config = Config::new(&args, false);

    assert_eq!(Ok(test_config), config);
}

#[test]
fn named_program_query_and_file() {
    let config = Config::new(&arguments(&["prog", "plerps", "plerps.txt"]), false).unwrap();
    assert_eq!(config.query, "plerps");
    assert_eq!(config.filename, "plerps.txt");
    assert!(config.case_sensitive);
}

#[test]
fn fewer_than_three_arguments_fail_whatever_they_hold() {
    for ignore_case in [false, true] {
        for words in [
            &[][..],
            &["prog"][..],
            &["prog", "query"][..],
            &["", ""][..],
            &["query", "poem.txt"][..],
        ] {
            assert_eq!(
                Config::new(&arguments(words), ignore_case),
                Err(ConfigError::NotEnoughArguments)
            );
        }
    }
}

#[test]
fn environment_override_turns_case_off() {
    let args = arguments(&["prog", "to", "poem.txt"]);
    assert!(Config::new(&args, false).unwrap().case_sensitive);
    assert!(!Config::new(&args, true).unwrap().case_sensitive);
}

#[test]
fn arguments_after_the_third_are_ignored() {
    let config = Config::new(&arguments(&["prog", "to", "poem.txt", "more", "words"]), true);
    assert_eq!(
        config,
        Ok(Config {
            query: "to".to_owned(),
            filename: "poem.txt".to_owned(),
            case_sensitive: false,
        })
    );
}

#[test]
fn empty_query_is_accepted() {
    let config = Config::new(&arguments(&["prog", "", "poem.txt"]), false).unwrap();
    assert_eq!(config.query, "");
    assert_eq!(config.filename, "poem.txt");
}

#[test]
fn error_message_names_the_problem() {
    assert_eq!(ConfigError::NotEnoughArguments.message(), "not enough arguments");
}

#[test]
fn override_variable_is_named() {
    assert_eq!(CASE_INSENSITIVE_VARIABLE, "CASE_INSENSITIVE");
}
