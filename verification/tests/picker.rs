use muscat::picker::{
    is_theme_file, theme_choices, theme_path, update, Effect, Message, State, THEMES_DIR,
};

fn names(list: &[&str]) -> Vec<String> {
    list.iter().map(|name| name.to_string()).collect()
}

#[test]
fn picker_starts_with_nothing_chosen() {
    assert_eq!(State::default(), State { selected_file: None });
}

#[test]
fn chosen_file_is_remembered() {
    let mut state = State::default();
    let first = update(&mut state, Message::FileSelected("mocha.json".to_string()));
    assert_eq!(first, Effect::Nothing);
    assert_eq!(state.selected_file, Some("mocha.json".to_string()));
    let second = update(&mut state, Message::FileSelected("latte.json".to_string()));
    assert_eq!(second, Effect::Nothing);
    assert_eq!(state.selected_file, Some("latte.json".to_string()));
}

#[test]
fn execute_applies_the_chosen_file() {
    let mut state = State { selected_file: Some("mocha.json".to_string()) };
    assert_eq!(update(&mut state, Message::Execute), Effect::Apply("mocha.json".to_string()));
    assert_eq!(state.selected_file, Some("mocha.json".to_string()));
}

#[test]
fn execute_with_nothing_chosen_does_nothing() {
    let mut state = State::default();
    assert_eq!(update(&mut state, Message::Execute), Effect::Nothing);
    assert_eq!(state, State::default());
}

#[test]
fn only_json_files_are_on_offer() {
    let entries = names(&[
        "mocha.json",
        "notes.txt",
        "latte.JSON",
        "README",
        ".json",
        "frappe.json",
        "old.json.bak",
        "two.dots.json",
    ]);
    assert_eq!(theme_choices(&entries), names(&["mocha.json", "frappe.json", "two.dots.json"]));
    assert_eq!(theme_choices(&names(&[])), names(&[]));
}

#[test]
fn theme_file_is_told_by_its_extension() {
    assert!(is_theme_file("mocha.json"));
    assert!(!is_theme_file("json"));
    assert!(!is_theme_file("mocha.jsonc"));
}

#[test]
fn theme_path_joins_directory_and_file() {
    assert_eq!(
        theme_path("/home/u/.config/muscat/themes", "mocha.json"),
        "/home/u/.config/muscat/themes/mocha.json"
    );
    assert_eq!(THEMES_DIR, "~/.config/muscat/themes");
}
