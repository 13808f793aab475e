use watchdog::config::extend_pairs;
use watchdog::args_opt::{ArgsOptExtend, ArgsOptExtendableType};
use watchdog::strings::{contains_substring, file_name_part, has_prefix, split_whitespace_tokens,
    str_eq, trim_owned};

#[test]
fn contains_substring_finds_inner_match() {
    assert!(contains_substring("/repo/.git/HEAD", ".git"));
    assert!(contains_substring("abc", ""));
    assert!(contains_substring("abc", "abc"));
    assert!(!contains_substring("abc", "abcd"));
    assert!(!contains_substring("/repo/src", ".git"));
}

#[test]
fn split_whitespace_tokens_drops_all_separators() {
    let tokens = split_whitespace_tokens("  cargo \t run\n--release ");
    assert_eq!(
        tokens,
        vec![String::from("cargo"), String::from("run"), String::from("--release")]
    );
    assert!(split_whitespace_tokens("").is_empty());
    assert!(split_whitespace_tokens(" \t\n").is_empty());
}

#[test]
fn trim_owned_strips_both_ends() {
    assert_eq!(trim_owned("  /repo\n"), "/repo");
    assert_eq!(trim_owned("x"), "x");
    assert_eq!(trim_owned("   "), "");
    assert_eq!(trim_owned("a b"), "a b");
}

#[test]
fn file_name_part_takes_suffix_after_last_slash() {
    assert_eq!(file_name_part("/repo/watchdog.toml"), "watchdog.toml");
    assert_eq!(file_name_part("watchdog.toml"), "watchdog.toml");
    assert_eq!(file_name_part("/repo/dir/"), "dir");
    assert_eq!(file_name_part("/repo/dir//"), "dir");
    assert_eq!(file_name_part("/"), "");
}

#[test]
fn prefix_and_equality_checks() {
    assert!(has_prefix("/repo/src", "/repo"));
    assert!(!has_prefix("/rep", "/repo"));
    assert!(str_eq("abc", "abc"));
    assert!(!str_eq("abc", "abd"));
}

#[test]
fn extend_pairs_zips_paths_with_kinds() {
    let pairs = extend_pairs(ArgsOptExtend {
        extend: Some(vec![String::from(".gitignore"), String::from(".dockerignore")]),
        extendable_type: Some(vec![ArgsOptExtendableType::Git]),
    })
    .unwrap();
    assert_eq!(pairs.len(), 1);
    assert_eq!(pairs[0].0, ".gitignore");
    assert!(matches!(pairs[0].1, ArgsOptExtendableType::Git));
    let missing = extend_pairs(ArgsOptExtend {
        extend: Some(vec![String::from(".gitignore")]),
        extendable_type: None,
    });
    assert!(missing.is_err());
}
