use cmake_scaffold::text::{join_with_newlines, str_eq};

#[test]
fn join_puts_newlines_between_lines_only() {
    assert_eq!(join_with_newlines(&vec![]), "");
    assert_eq!(join_with_newlines(&vec!["a".to_string()]), "a");
    let lines = vec!["a".to_string(), String::new(), "b c".to_string()];
    assert_eq!(join_with_newlines(&lines), "a\n\nb c");
}

#[test]
fn str_eq_compares_characters() {
    assert!(str_eq("", ""));
    assert!(str_eq("cxx", "cxx"));
    assert!(!str_eq("c", "cxx"));
    assert!(!str_eq("exe", "exa"));
    assert!(str_eq("项目", "项目"));
}
