use chatter::args::{has_flag, resolve_prefix, take_flag_value, take_kv, take_option};

fn words(line: &str) -> Vec<String> {
    line.split_whitespace().map(|w| w.to_string()).collect()
}

#[test]
fn values_are_taken_out_with_their_keys() {
    let mut args = words("a key v b");
    assert_eq!(take_kv(&mut args, "key").as_deref(), Some("v"));
    assert_eq!(args, words("a b"));
    assert_eq!(take_kv(&mut args, "key"), None);
    assert_eq!(args, words("a b"));
    assert_eq!(take_kv(&mut args, "b"), None);
    assert_eq!(args, words("a b"));
    let mut args = words("--since c --since d");
    assert_eq!(take_flag_value(&mut args, "--since").as_deref(), Some("c"));
    assert_eq!(args, words("--since d"));
    assert_eq!(take_flag_value(&mut args, "--from"), None);
}

#[test]
fn a_flag_goes_before_a_key() {
    let mut args = words("limit 3 --limit 5");
    assert_eq!(take_option(&mut args, "--limit", "limit").as_deref(), Some("5"));
    assert_eq!(args, words("limit 3"));
    assert_eq!(take_option(&mut args, "--limit", "limit").as_deref(), Some("3"));
    assert!(args.is_empty());
    assert_eq!(take_option(&mut args, "--limit", "limit"), None);
}

#[test]
fn flags_are_taken_out_one_by_one() {
    let mut args = words("a --debug b --debug");
    assert!(has_flag(&mut args, "--debug"));
    assert_eq!(args, words("a b --debug"));
    assert!(has_flag(&mut args, "--debug"));
    assert!(!has_flag(&mut args, "--debug"));
    assert_eq!(args, words("a b"));
}

#[test]
fn names_may_be_cut_short() {
    let options = ["list", "login-start", "login-complete"];
    assert_eq!(resolve_prefix("li", &options), Ok("list".to_string()));
    assert_eq!(resolve_prefix("login-s", &options), Ok("login-start".to_string()));
    assert_eq!(resolve_prefix("list", &options), Ok("list".to_string()));
    assert_eq!(resolve_prefix("x", &options), Err("unknown command".to_string()));
    assert_eq!(
        resolve_prefix("log", &options),
        Err("ambiguous command: login-start, login-complete".to_string())
    );
    assert_eq!(resolve_prefix("a", &[]), Err("unknown command".to_string()));
}
