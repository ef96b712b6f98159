use zls::path::{get_file_name_from_path, is_flag_like, is_hidden};

fn name_of(p: &str) -> String {
    get_file_name_from_path(&p.to_string())
}

#[test]
fn file_name_after_last_slash() {
    assert_eq!(name_of("a/b/c.txt"), "c.txt");
}

#[test]
fn file_name_without_separator_is_whole_path() {
    assert_eq!(name_of("c.txt"), "c.txt");
}

#[test]
fn file_name_after_last_backslash() {
    assert_eq!(name_of("a\\b\\c"), "c");
}

#[test]
fn file_name_mixed_separators() {
    assert_eq!(name_of("a\\b/c\\d.rs"), "d.rs");
    assert_eq!(name_of("/x/y"), "y");
}

#[test]
fn file_name_edge_cases() {
    assert_eq!(name_of(""), "");
    assert_eq!(name_of("dir/"), "");
    assert_eq!(name_of("/"), "");
    assert_eq!(name_of("./.hidden"), ".hidden");
    assert_eq!(name_of("ä/ö€"), "ö€");
}

#[test]
fn hidden_plain_name_with_dotfiles_hidden() {
    assert!(!is_hidden(&"x".to_string(), true));
}

#[test]
fn hidden_dotfile_with_dotfiles_hidden() {
    assert!(is_hidden(&".x".to_string(), true));
}

#[test]
fn hidden_dotfile_shown_when_not_hiding() {
    assert!(!is_hidden(&".x".to_string(), false));
}

#[test]
fn hidden_dash_always() {
    assert!(is_hidden(&"-x".to_string(), false));
    assert!(is_hidden(&"-x".to_string(), true));
}

#[test]
fn hidden_empty_name() {
    assert!(!is_hidden(&String::new(), true));
}

#[test]
fn flag_like_tokens() {
    assert!(is_flag_like(&"-l".to_string()));
    assert!(is_flag_like(&"dir/-x".to_string()));
    assert!(!is_flag_like(&"-dir/x".to_string()));
    assert!(!is_flag_like(&"x".to_string()));
    assert!(!is_flag_like(&String::new()));
}
