use article_store::{ArticleTag, Store};

fn names(list: &[&str]) -> Vec<String> {
    list.iter().map(|s| s.to_string()).collect()
}

fn sorted(mut list: Vec<String>) -> Vec<String> {
    list.sort();
    list
}

#[test]
fn add_tag_returns_the_row() {
    let mut store = Store::new();
    let tag = store.add_tag(1, "rust");
    assert_eq!(tag, ArticleTag { article_id: 1, tag_name: "rust".to_string() });
    assert_eq!(store.select_tags_on_article(1), names(&["rust"]));
}

#[test]
fn add_tag_twice_leaves_one_row() {
    let mut store = Store::new();
    let first = store.add_tag(1, "rust");
    let once = store.clone();
    let second = store.add_tag(1, "rust");
    assert_eq!(first, second);
    assert_eq!(store, once);
    assert_eq!(store.select_tags_on_article(1), names(&["rust"]));
}

#[test]
fn same_name_on_two_articles_is_two_tags() {
    let mut store = Store::new();
    store.add_tag(1, "rust");
    store.add_tag(2, "rust");
    assert_eq!(store.select_tags_on_article(1), names(&["rust"]));
    assert_eq!(store.select_tags_on_article(2), names(&["rust"]));
}

#[test]
fn select_tags_of_untagged_article_is_empty() {
    let store = Store::new();
    assert!(store.select_tags_on_article(1).is_empty());
}

#[test]
fn delete_tags_removes_all_of_one_article_only() {
    let mut store = Store::new();
    store.add_tag(1, "a");
    store.add_tag(2, "b");
    store.add_tag(1, "c");
    store.delete_tags(1);
    assert!(store.select_tags_on_article(1).is_empty());
    assert_eq!(store.select_tags_on_article(2), names(&["b"]));
}

#[test]
fn delete_tags_without_tags_changes_nothing() {
    let mut store = Store::new();
    store.add_tag(2, "b");
    let before = store.clone();
    store.delete_tags(1);
    assert_eq!(store, before);
}

#[test]
fn replace_then_select_gives_the_new_set() {
    let mut store = Store::new();
    store.add_tag(1, "old");
    store.add_tag(1, "kept");
    store.add_tag(2, "other");
    let rows = store.replace_tags(1, &names(&["kept", "new"]));
    assert_eq!(
        rows,
        vec![
            ArticleTag { article_id: 1, tag_name: "kept".to_string() },
            ArticleTag { article_id: 1, tag_name: "new".to_string() },
        ]
    );
    assert_eq!(sorted(store.select_tags_on_article(1)), names(&["kept", "new"]));
    assert_eq!(store.select_tags_on_article(2), names(&["other"]));
}

#[test]
fn replace_with_repeated_names_keeps_each_once() {
    let mut store = Store::new();
    let rows = store.replace_tags(1, &names(&["a", "b", "a", "a", "b"]));
    assert_eq!(rows.len(), 5);
    assert_eq!(rows[2], ArticleTag { article_id: 1, tag_name: "a".to_string() });
    assert_eq!(sorted(store.select_tags_on_article(1)), names(&["a", "b"]));
}

#[test]
fn replace_with_nothing_empties_the_set() {
    let mut store = Store::new();
    store.add_tag(1, "a");
    store.add_tag(1, "b");
    let rows = store.replace_tags(1, &Vec::new());
    assert!(rows.is_empty());
    assert!(store.select_tags_on_article(1).is_empty());
}

#[test]
fn replace_is_the_same_when_done_again() {
    let mut store = Store::new();
    store.replace_tags(1, &names(&["x", "y"]));
    let once = sorted(store.select_tags_on_article(1));
    store.replace_tags(1, &names(&["x", "y"]));
    assert_eq!(sorted(store.select_tags_on_article(1)), once);
}

#[test]
fn tag_names_differ_by_case_and_space() {
    let mut store = Store::new();
    store.replace_tags(1, &names(&["Rust", "rust", "rust ", ""]));
    assert_eq!(sorted(store.select_tags_on_article(1)), names(&["", "Rust", "rust", "rust "]));
}
