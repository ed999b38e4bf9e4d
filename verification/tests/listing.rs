use reveal_yourself::{Config, run};

fn empty_config() -> Config {
    Config::new(&[]).unwrap()
}

#[test]
fn lists_every_entry_of_a_readable_directory() {
    let entries: Vec<Option<String>> = vec![
        Some("./a.txt".to_string()),
        Some("./b.txt".to_string()),
    ];
    let lines = run(Ok(entries), empty_config()).unwrap();
    assert_eq!(lines.len(), 2);
    assert!(lines.contains(&"./a.txt".to_string()));
    assert!(lines.contains(&"./b.txt".to_string()));
}

#[test]
fn open_failure_is_reported_as_an_error() {
    let result = run(Err("No such file or directory".to_string()), empty_config());
    let error = result.err().expect("an unopenable directory must be fatal");
    assert!(!error.message.is_empty());
    assert_eq!(error.message, "No such file or directory".to_string());
}

#[test]
fn unchanged_directory_lists_identically_twice() {
    let entries: Vec<Option<String>> = vec![
        Some("./a.txt".to_string()),
        Some("./b.txt".to_string()),
        Some("./c.txt".to_string()),
    ];
    let first = run(Ok(entries.clone()), empty_config()).unwrap();
    let second = run(Ok(entries), empty_config()).unwrap();
    assert_eq!(first, second);
}

#[test]
fn empty_directory_lists_nothing() {
    let entries: Vec<Option<String>> = Vec::new();
    let lines = run(Ok(entries), empty_config()).unwrap();
    assert_eq!(lines.len(), 0);
}

#[test]
fn failed_entry_read_truncates_the_listing() {
    let entries: Vec<Option<String>> = vec![
        Some("./a.txt".to_string()),
        None,
        Some("./b.txt".to_string()),
    ];
    let lines = run(Ok(entries), empty_config()).unwrap();
    assert_eq!(lines, vec!["./a.txt".to_string()]);
}

#[test]
fn failed_first_read_lists_nothing() {
    let entries: Vec<Option<String>> = vec![None, Some("./a.txt".to_string())];
    let lines = run(Ok(entries), empty_config()).unwrap();
    assert_eq!(lines.len(), 0);
}
