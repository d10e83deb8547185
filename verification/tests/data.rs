use muscat::data::DataContext;

#[test]
fn json_document_is_loaded() {
    let context = DataContext::load("{\"color\": \"#fff\", \"sizes\": [1, 2.5], \"on\": true}")
        .expect("a JSON document loads");
    assert_eq!(context.value()["color"], "#fff");
    assert_eq!(context.value()["sizes"][1], 2.5);
    assert_eq!(context.value()["on"], true);
}

#[test]
fn scalar_documents_are_json_too() {
    assert!(DataContext::load("null").is_some());
    assert!(DataContext::load(" 12 ").is_some());
    assert!(DataContext::load("\"text\"").is_some());
}

#[test]
fn what_is_not_json_is_not_loaded() {
    assert!(DataContext::load("").is_none());
    assert!(DataContext::load("{\"color\":").is_none());
    assert!(DataContext::load("{} trailing").is_none());
    assert!(DataContext::load("{'single': 1}").is_none());
    assert!(DataContext::load("// note\n{}").is_none());
}
