use loa_assist::text::{chars_of, contains_chars, contains_substring, matches_at, same_text};
use loa_assist::window_utils::window_search::{
    find_window_by_title, get_all_window_titles, get_window_titles, WindowEntry,
};

fn entry(visible: bool, title: &str) -> WindowEntry {
    WindowEntry { visible, title: title.to_string() }
}

#[test]
fn only_visible_windows_with_a_title_are_listed() {
    let windows = vec![
        entry(true, "LOST ARK (64-bit, DX11) v.3.5.7.1"),
        entry(false, "hidden helper"),
        entry(true, ""),
        entry(true, "Notepad"),
        entry(false, ""),
        entry(true, "Lost Ark Assist"),
    ];
    let titles = get_all_window_titles(&windows);
    assert_eq!(
        titles,
        vec![
            "LOST ARK (64-bit, DX11) v.3.5.7.1".to_string(),
            "Notepad".to_string(),
            "Lost Ark Assist".to_string(),
        ]
    );
    assert_eq!(get_window_titles(&windows), titles);
    assert_eq!(get_all_window_titles(&Vec::new()), Vec::<String>::new());
}

#[test]
fn first_title_that_contains_the_target_is_found() {
    let titles = vec![
        "Notepad".to_string(),
        "LOST ARK (64-bit, DX11) v.3.5.7.1".to_string(),
        "LOST ARK launcher".to_string(),
    ];
    let found = find_window_by_title(titles.clone(), "LOST ARK".to_string());
    assert_eq!(found, Some("LOST ARK (64-bit, DX11) v.3.5.7.1".to_string()));
    let found = find_window_by_title(titles.clone(), "launcher".to_string());
    assert_eq!(found, Some("LOST ARK launcher".to_string()));
    let found = find_window_by_title(titles.clone(), "lost ark".to_string());
    assert_eq!(found, None);
    let found = find_window_by_title(titles.clone(), String::new());
    assert_eq!(found, Some("Notepad".to_string()));
    assert_eq!(find_window_by_title(Vec::new(), String::new()), None);
}

#[test]
fn substring_search_works_on_characters() {
    assert!(contains_substring("숙제표 설정 - LoaAssist", "숙제표 설정"));
    assert!(contains_substring("abc", ""));
    assert!(contains_substring("", ""));
    assert!(!contains_substring("", "a"));
    assert!(contains_substring("abcabd", "abd"));
    assert!(!contains_substring("abcabd", "abe"));
    assert!(!contains_substring("ab", "abc"));
    assert!(contains_substring("xyz", "xyz"));
    assert!(contains_substring("xyz", "z"));
}

#[test]
fn text_helpers_agree_with_std() {
    assert_eq!(chars_of("a설b"), vec!['a', '설', 'b']);
    assert_eq!(chars_of(""), Vec::<char>::new());
    let hay = chars_of("hello");
    assert!(matches_at(&chars_of("ll"), &hay, 2));
    assert!(!matches_at(&chars_of("ll"), &hay, 3));
    assert!(!matches_at(&chars_of("lo"), &hay, 4));
    assert!(matches_at(&chars_of(""), &hay, 5));
    assert!(!matches_at(&chars_of(""), &hay, 6));
    assert!(contains_chars(&chars_of("lo"), &hay));
    assert!(!contains_chars(&chars_of("ol"), &hay));
    assert!(same_text("quit", "quit"));
    assert!(!same_text("quit", "Quit"));
}
