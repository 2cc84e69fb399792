use article_store::{
    cascade, has_generated_slug, plan_delete, tag_replacement, Article, ArticleUpdate, Error,
    Favorite, NewArticle, Statement, StorageFault, Store,
};

const HELLO_ID: u128 = 0x557c8018_5e21_4b74_8bb0_9040e2e8ead1;

fn names(list: &[&str]) -> Vec<String> {
    list.iter().map(|s| s.to_string()).collect()
}

fn sorted(mut list: Vec<String>) -> Vec<String> {
    list.sort();
    list
}

fn row(id: u128, author_id: u128) -> Article {
    Article {
        id,
        slug: article_store::generate_slug(id, "Title"),
        title: "Title".to_string(),
        description: "d".to_string(),
        body: "b".to_string(),
        author_id,
        created_at: 1,
        updated_at: 2,
    }
}

#[test]
fn tag_replacement_deletes_then_adds_in_order() {
    assert_eq!(
        tag_replacement(4, &names(&["b", "a", "b"])),
        vec![
            Statement::DeleteTags(4),
            Statement::AddTag(4, "b".to_string()),
            Statement::AddTag(4, "a".to_string()),
            Statement::AddTag(4, "b".to_string()),
        ]
    );
    assert_eq!(tag_replacement(4, &Vec::new()), vec![Statement::DeleteTags(4)]);
}

#[test]
fn cascade_is_tags_favorites_article() {
    assert_eq!(
        cascade(9),
        vec![
            Statement::DeleteTags(9),
            Statement::DeleteFavorites(9),
            Statement::DeleteArticle(9),
        ]
    );
}

#[test]
fn only_the_author_gets_a_delete_plan() {
    assert_eq!(plan_delete(7, &row(9, 7)), Ok(cascade(9)));
    assert_eq!(plan_delete(8, &row(9, 7)), Err(Error::Forbidden));
}

#[test]
fn create_plan_inserts_then_sets_the_tags() {
    let draft = NewArticle {
        title: "Hello World".to_string(),
        description: "A greeting".to_string(),
        body: "Hello, world.".to_string(),
        tag_list: names(&["x", "y"]),
    };
    let (row, plan) = draft.plan(HELLO_ID, 3, -7);
    assert_eq!(
        row,
        Article {
            id: HELLO_ID,
            slug: "VXyAGF4hS3SLsJBA4ujq0Q-hello-world".to_string(),
            title: "Hello World".to_string(),
            description: "A greeting".to_string(),
            body: "Hello, world.".to_string(),
            author_id: 3,
            created_at: -7,
            updated_at: -7,
        }
    );
    assert_eq!(
        plan,
        vec![
            Statement::InsertArticle(row),
            Statement::DeleteTags(HELLO_ID),
            Statement::AddTag(HELLO_ID, "x".to_string()),
            Statement::AddTag(HELLO_ID, "y".to_string()),
        ]
    );
}

#[test]
fn update_plan_writes_the_row_and_replaces_listed_tags() {
    let update = ArticleUpdate {
        title: Some("New".to_string()),
        description: None,
        body: None,
        tag_list: Some(names(&["t"])),
    };
    let (changed, plan) = update.plan(7, &row(0, 7), 50).unwrap();
    assert_eq!(changed.slug, "AAAAAAAAAAAAAAAAAAAAAA-new");
    assert_eq!(changed.title, "New");
    assert_eq!(changed.description, "d");
    assert_eq!(changed.updated_at, 50);
    assert_eq!(changed.created_at, 1);
    assert_eq!(
        plan,
        vec![
            Statement::UpdateArticle(changed),
            Statement::DeleteTags(0),
            Statement::AddTag(0, "t".to_string()),
        ]
    );
}

#[test]
fn update_plan_without_tags_leaves_them_alone() {
    let update = ArticleUpdate {
        title: None,
        description: None,
        body: Some("text".to_string()),
        tag_list: None,
    };
    let (changed, plan) = update.plan(7, &row(0, 7), 50).unwrap();
    assert_eq!(changed.slug, "AAAAAAAAAAAAAAAAAAAAAA-title");
    assert_eq!(changed.body, "text");
    assert_eq!(plan, vec![Statement::UpdateArticle(changed)]);
}

#[test]
fn update_plan_is_forbidden_to_others() {
    let update = ArticleUpdate { title: None, description: None, body: None, tag_list: None };
    assert_eq!(update.plan(8, &row(0, 7), 50), Err(Error::Forbidden));
}

#[test]
fn running_a_tag_replacement_replaces_the_tags() {
    let mut by_plan = Store::new();
    by_plan.add_tag(1, "old");
    by_plan.add_tag(2, "other");
    let mut direct = by_plan.clone();
    assert_eq!(by_plan.run(&tag_replacement(1, &names(&["a", "b", "a"]))), Ok(()));
    direct.replace_tags(1, &names(&["a", "b", "a"]));
    assert_eq!(by_plan, direct);
    assert_eq!(sorted(by_plan.select_tags_on_article(1)), names(&["a", "b"]));
}

#[test]
fn run_stops_at_the_first_fault_and_keeps_what_was_done() {
    let mut store = Store::new();
    let favorite = Favorite { user_id: 2, article_id: 1 };
    let plan = vec![
        Statement::AddTag(1, "a".to_string()),
        Statement::InsertFavorite(favorite),
        Statement::InsertFavorite(favorite),
        Statement::AddTag(1, "b".to_string()),
    ];
    assert_eq!(store.run(&plan), Err(StorageFault::UniqueViolation));
    assert_eq!(store.select_tags_on_article(1), names(&["a"]));
    assert!(store.get_favorited(1, 2));
    assert_eq!(store.get_favorites_count(1), 1);
}

#[test]
fn run_of_nothing_changes_nothing() {
    let mut store = Store::new();
    store.add_tag(1, "a");
    let before = store.clone();
    assert_eq!(store.run(&Vec::new()), Ok(()));
    assert_eq!(store, before);
}

#[test]
fn insert_of_a_taken_id_is_rejected() {
    let mut store = Store::new();
    assert_eq!(store.execute(&Statement::InsertArticle(row(5, 1))), Ok(()));
    let once = store.clone();
    assert_eq!(
        store.execute(&Statement::InsertArticle(row(5, 2))),
        Err(StorageFault::UniqueViolation)
    );
    assert_eq!(store, once);
}

#[test]
fn update_of_a_missing_row_fails() {
    let mut store = Store::new();
    assert_eq!(store.execute(&Statement::UpdateArticle(row(5, 1))), Err(StorageFault::NoRow));
    assert_eq!(store, Store::new());
}

#[test]
fn update_replaces_the_row_with_the_same_id() {
    let mut store = Store::new();
    store.execute(&Statement::InsertArticle(row(5, 1))).unwrap();
    store.execute(&Statement::InsertArticle(row(6, 1))).unwrap();
    let changed = Article { body: "new body".to_string(), updated_at: 9, ..row(5, 1) };
    assert_eq!(store.execute(&Statement::UpdateArticle(changed.clone())), Ok(()));
    assert_eq!(store.find_article(&changed.slug), Some(&changed));
    assert_eq!(store.find_article(&row(6, 1).slug), Some(&row(6, 1)));
}

#[test]
fn delete_of_a_missing_row_changes_nothing() {
    let mut store = Store::new();
    store.execute(&Statement::InsertArticle(row(5, 1))).unwrap();
    let before = store.clone();
    assert_eq!(store.execute(&Statement::DeleteArticle(6)), Ok(()));
    assert_eq!(store, before);
    assert_eq!(store.execute(&Statement::DeleteArticle(5)), Ok(()));
    assert!(!store.has_article(5));
}

#[test]
fn cascade_run_again_after_a_stop_ends_the_same() {
    let mut whole = Store::new();
    whole.execute(&Statement::InsertArticle(row(5, 1))).unwrap();
    whole.add_tag(5, "a");
    whole.insert_favorite(2, 5).unwrap();
    whole.add_tag(6, "kept");
    let mut stopped = whole.clone();
    assert_eq!(whole.run(&cascade(5)), Ok(()));
    assert_eq!(stopped.execute(&Statement::DeleteTags(5)), Ok(()));
    assert!(stopped.has_article(5));
    assert_eq!(stopped.run(&cascade(5)), Ok(()));
    assert_eq!(stopped, whole);
    assert_eq!(whole.select_tags_on_article(6), names(&["kept"]));
}

#[test]
fn generated_slug_is_recognized() {
    assert!(has_generated_slug(&row(5, 1)));
    assert!(!has_generated_slug(&Article { slug: "title".to_string(), ..row(5, 1) }));
    assert!(!has_generated_slug(&Article { title: "Other".to_string(), ..row(5, 1) }));
    assert!(!has_generated_slug(&Article { id: 6, ..row(5, 1) }));
}

#[test]
fn row_with_a_foreign_slug_is_rejected() {
    let mut store = Store::new();
    let squatter = Article { slug: row(6, 1).slug, ..row(5, 1) };
    assert_eq!(
        store.execute(&Statement::InsertArticle(squatter.clone())),
        Err(StorageFault::Other)
    );
    assert_eq!(store, Store::new());
    store.execute(&Statement::InsertArticle(row(5, 1))).unwrap();
    let before = store.clone();
    assert_eq!(store.execute(&Statement::UpdateArticle(squatter)), Err(StorageFault::Other));
    assert_eq!(store, before);
    assert_eq!(Error::from_fault(StorageFault::Other), Error::StorageFailure);
}
