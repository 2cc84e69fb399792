use article_store::{NewArticle, Store, User};

fn user(id: u128, name: &str) -> User {
    User { id, username: name.to_string(), bio: None, image: None }
}

fn draft(title: &str) -> NewArticle {
    NewArticle {
        title: title.to_string(),
        description: "d".to_string(),
        body: "b".to_string(),
        tag_list: Vec::new(),
    }
}

#[test]
fn nobody_has_favorited_in_an_empty_store() {
    let store = Store::new();
    assert!(!store.get_favorited(1, 2));
    assert_eq!(store.get_favorites_count(1), 0);
    assert_eq!(store.get_favorited_and_following(1, 3, 2), (false, false));
}

#[test]
fn favorites_are_counted_per_article() {
    let mut store = Store::new();
    assert!(store.insert_user(user(1, "author")));
    let a = store.create_article_with_id(10, &user(1, "author"), draft("A"), 0).unwrap();
    let b = store.create_article_with_id(11, &user(1, "author"), draft("B"), 0).unwrap();
    store.favorite_article(&a.slug, 2).unwrap();
    store.favorite_article(&a.slug, 3).unwrap();
    store.favorite_article(&b.slug, 2).unwrap();
    assert_eq!(store.get_favorites_count(10), 2);
    assert_eq!(store.get_favorites_count(11), 1);
    assert!(store.get_favorited(10, 2));
    assert!(store.get_favorited(10, 3));
    assert!(store.get_favorited(11, 2));
    assert!(!store.get_favorited(11, 3));
    assert!(!store.get_favorited(2, 10));
}

#[test]
fn delete_favorites_removes_all_of_one_article_only() {
    let mut store = Store::new();
    store.insert_favorite(2, 10).unwrap();
    store.insert_favorite(3, 10).unwrap();
    store.insert_favorite(2, 11).unwrap();
    store.delete_favorites(10);
    assert_eq!(store.get_favorites_count(10), 0);
    assert_eq!(store.get_favorites_count(11), 1);
    assert!(store.get_favorited(11, 2));
}

#[test]
fn delete_favorites_without_favorites_changes_nothing() {
    let mut store = Store::new();
    store.insert_favorite(2, 11).unwrap();
    let before = store.clone();
    store.delete_favorites(10);
    assert_eq!(store, before);
}

#[test]
fn delete_favorite_that_is_not_there_changes_nothing() {
    let mut store = Store::new();
    store.insert_favorite(2, 11).unwrap();
    let before = store.clone();
    store.delete_favorite(3, 11);
    store.delete_favorite(2, 12);
    assert_eq!(store, before);
    store.delete_favorite(2, 11);
    assert_eq!(store.get_favorites_count(11), 0);
}

#[test]
fn following_is_read_from_the_followers() {
    let mut store = Store::new();
    assert!(store.insert_follow(2, 1));
    assert!(store.get_following(1, 2));
    assert!(!store.get_following(2, 1));
    assert_eq!(store.get_favorited_and_following(10, 1, 2), (false, true));
    store.insert_favorite(2, 10).unwrap();
    assert_eq!(store.get_favorited_and_following(10, 1, 2), (true, true));
    assert_eq!(store.get_favorited_and_following(10, 1, 3), (false, false));
}

#[test]
fn a_follow_is_recorded_once() {
    let mut store = Store::new();
    assert!(store.insert_follow(2, 1));
    let once = store.clone();
    assert!(!store.insert_follow(2, 1));
    assert_eq!(store, once);
}

#[test]
fn nobody_follows_themselves() {
    let mut store = Store::new();
    let before = store.clone();
    assert!(!store.insert_follow(1, 1));
    assert_eq!(store, before);
    assert!(!store.get_following(1, 1));
}

#[test]
fn anonymous_viewer_has_no_flags() {
    let mut store = Store::new();
    store.insert_follow(2, 1);
    store.insert_favorite(2, 10).unwrap();
    assert_eq!(store.annotate(10, 1, None), (false, false));
    assert_eq!(store.annotate(10, 1, Some(2)), (true, true));
}

#[test]
fn a_user_id_is_taken_once() {
    let mut store = Store::new();
    assert!(store.insert_user(user(1, "first")));
    let once = store.clone();
    assert!(!store.insert_user(user(1, "second")));
    assert_eq!(store, once);
    assert_eq!(store.find_user(1), Some(&user(1, "first")));
    assert_eq!(store.find_user(2), None);
}
