use minigrep::{run, Config};

fn config(query: &str, case_sensitive: bool) -> Config {
    Config {
        query: query.to_owned(),
        filename: "poem.txt".to_owned(),
        case_sensitive,
    }
}

#[test]
fn run_minds_case_when_asked_to() {
    let contents = "Rust:\nsafe, fast, productive.\nPick three.\nDuct tape";
    assert_eq!(run(&config("duct", true), contents), vec!["safe, fast, productive."]);
}

#[test]
fn run_ignores_case_when_asked_to() {
    let contents = "Rust:\nsafe, fast, productive.\nPick three.\nTrust me.";
    assert_eq!(run(&config("rUsT", false), contents), vec!["Rust:", "Trust me."]);
    assert_eq!(run(&config("rUsT", true), contents), Vec::<&str>::new());
}

#[test]
fn run_does_not_look_at_the_file_name() {
    let contents = "poem.txt\nanother line";
    assert_eq!(run(&config("line", true), contents), vec!["another line"]);
}
