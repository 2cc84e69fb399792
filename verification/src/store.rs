//! The store: five tables kept as vectors of rows.
//!
//! The view of a [`Store`] is the [`Tables`] of the model; this module holds
//! the statements on single tables, each proved against the model's account
//! of it.

use vstd::prelude::*;
use vstd::string::*;
use crate::error::StorageFault;
use crate::model::Tables;
use crate::rows::{Article, ArticleRow, ArticleTag, Favorite, Follow, TagRow, User, UserRow};
use crate::seqs::{
    lemma_contains_push,
    lemma_prefix_step,
    lemma_set_of_empty,
    lemma_set_of_prefix,
    lemma_set_of_push,
    lemma_set_of_remove,
    lemma_views_push,
    lemma_views_remove,
    views,
};
use crate::slug::slug_of;

verus! {

/// The contents of a blogging service: users, articles, tags, favorites
/// and followers.
#[derive(Debug, Clone, PartialEq, Eq)]
pub struct Store {
    users: Vec<User>,
    articles: Vec<Article>,
    tags: Vec<ArticleTag>,
    favorites: Vec<Favorite>,
    followers: Vec<Follow>,
}

impl View for Store {
    type V = Tables;

    closed spec fn view(&self) -> Tables {
        Tables {
            users: views(self.users@).to_set(),
            articles: views(self.articles@).to_set(),
            tags: views(self.tags@).to_set(),
            favorites: self.favorites@.to_set(),
            followers: self.followers@.to_set(),
        }
    }
}

impl Store {
    /// No table holds a row twice.
    pub closed spec fn distinct(&self) -> bool {
        &&& views(self.users@).no_duplicates()
        &&& views(self.articles@).no_duplicates()
        &&& views(self.tags@).no_duplicates()
        &&& self.favorites@.no_duplicates()
        &&& self.followers@.no_duplicates()
    }

    /// The store is well formed: its rows are distinct and its tables meet
    /// the model's invariant.
    pub open spec fn wf(&self) -> bool {
        self.distinct() && self@.wf()
    }

    proof fn lemma_finite(&self)
        ensures
            self@.users.finite(),
            self@.articles.finite(),
            self@.tags.finite(),
            self@.favorites.finite(),
            self@.followers.finite(),
    {
        vstd::seq_lib::seq_to_set_is_finite(views(self.users@));
        vstd::seq_lib::seq_to_set_is_finite(views(self.articles@));
        vstd::seq_lib::seq_to_set_is_finite(views(self.tags@));
        vstd::seq_lib::seq_to_set_is_finite(self.favorites@);
        vstd::seq_lib::seq_to_set_is_finite(self.followers@);
    }

    /// A store with nothing in it.
    pub fn new() -> (store: Store)
        ensures
            store.wf(),
            store@ == Tables::empty(),
    {
        let store = Store {
            users: Vec::new(),
            articles: Vec::new(),
            tags: Vec::new(),
            favorites: Vec::new(),
            followers: Vec::new(),
        };
        proof {
            lemma_set_of_empty::<UserRow>();
            lemma_set_of_empty::<ArticleRow>();
            lemma_set_of_empty::<TagRow>();
            lemma_set_of_empty::<Favorite>();
            lemma_set_of_empty::<Follow>();
            assert(views(store.users@) =~= Seq::empty());
            assert(views(store.articles@) =~= Seq::empty());
            assert(views(store.tags@) =~= Seq::empty());
            assert(store.favorites@ =~= Seq::empty());
            assert(store.followers@ =~= Seq::empty());
            assert(store@ =~= Tables::empty());
        }
        store
    }

    // ----- users -----

    /// The user with this id.
    pub fn find_user(&self, id: u128) -> (found: Option<&User>)
        requires
            self.wf(),
        ensures
            found is Some <==> self@.has_user(id),
            found matches Some(user) ==> user@ == self@.user(id),
    {
        let mut i: usize = 0;
        while i < self.users.len()
            invariant
                self.wf(),
                i <= self.users.len(),
                forall|j: int| 0 <= j < i ==> (#[trigger] self.users@[j]).id != id,
            decreases self.users.len() - i,
        {
            if self.users[i].id == id {
                proof {
                    let rows = views(self.users@);
                    assert(rows[i as int] == self.users@[i as int]@);
                    assert(rows.contains(rows[i as int]));
                    self@.lemma_user(rows[i as int]);
                }
                return Some(&self.users[i]);
            }
            i += 1;
        }
        proof {
            let rows = views(self.users@);
            assert forall|u: UserRow| self@.users.contains(u) implies u.id != id by {
                let j = choose|j: int| 0 <= j < rows.len() && rows[j] == u;
                assert(self.users@[j].id != id);
            }
        }
        None
    }

    /// Takes over a row of the users table, which the accounts subsystem
    /// owns and no operation on articles writes. Where the id is taken,
    /// nothing changes and the answer is `false`.
    pub fn insert_user(&mut self, user: User) -> (inserted: bool)
        requires
            old(self).wf(),
        ensures
            final(self).wf(),
            inserted == !old(self)@.has_user(user.id),
            inserted ==> final(self)@ == old(self)@.with_user(user@),
            !inserted ==> final(self)@ == old(self)@,
    {
        if self.find_user(user.id).is_some() {
            return false;
        }
        proof {
            let rows = views(self.users@);
            if rows.contains(user@) {
                assert(self@.users.contains(user@));
            }
            lemma_views_push(self.users@, user);
            lemma_set_of_push(rows, user@);
        }
        self.users.push(user);
        proof {
            self.lemma_finite();
        }
        true
    }

    // ----- followers -----

    /// Whether `viewer_id` follows `author_id`.
    pub fn get_following(&self, author_id: u128, viewer_id: u128) -> (following: bool)
        requires
            self.wf(),
        ensures
            following == self@.following(author_id, viewer_id),
    {
        let mut i: usize = 0;
        while i < self.followers.len()
            invariant
                i <= self.followers.len(),
                forall|j: int|
                    0 <= j < i ==> #[trigger] self.followers@[j] != (Follow {
                        follower_id: viewer_id,
                        user_id: author_id,
                    }),
            decreases self.followers.len() - i,
        {
            if self.followers[i].follower_id == viewer_id && self.followers[i].user_id
                == author_id {
                proof {
                    assert(self.followers@.contains(self.followers@[i as int]));
                }
                return true;
            }
            i += 1;
        }
        false
    }

    /// Takes over a row of the followers table, which the social graph
    /// owns and no operation on articles writes: `follower_id` follows
    /// `user_id`. Nobody follows themselves, and a follow that is there
    /// already is not recorded twice: in both cases nothing changes and the
    /// answer is `false`.
    pub fn insert_follow(&mut self, follower_id: u128, user_id: u128) -> (inserted: bool)
        requires
            old(self).wf(),
        ensures
            final(self).wf(),
            inserted == (follower_id != user_id && !old(self)@.following(user_id, follower_id)),
            inserted ==> final(self)@ == old(self)@.with_follow(follower_id, user_id),
            !inserted ==> final(self)@ == old(self)@,
    {
        if follower_id == user_id || self.get_following(user_id, follower_id) {
            return false;
        }
        proof {
            lemma_set_of_push(self.followers@, Follow { follower_id, user_id });
        }
        self.followers.push(Follow { follower_id, user_id });
        proof {
            self.lemma_finite();
        }
        true
    }

    // ----- articles -----

    /// The article that goes by this slug.
    pub fn find_article(&self, slug: &str) -> (found: Option<&Article>)
        requires
            self.wf(),
        ensures
            found is Some <==> self@.article_by_slug(slug@) is Some,
            found matches Some(article) ==> self@.article_by_slug(slug@) == Some(article@),
    {
        let key = String::from_str(slug);
        let mut i: usize = 0;
        while i < self.articles.len()
            invariant
                self.wf(),
                i <= self.articles.len(),
                key@ == slug@,
                forall|j: int| 0 <= j < i ==> (#[trigger] self.articles@[j]).slug@ != slug@,
            decreases self.articles.len() - i,
        {
            if self.articles[i].slug == key {
                proof {
                    let rows = views(self.articles@);
                    assert(rows[i as int] == self.articles@[i as int]@);
                    assert(rows.contains(rows[i as int]));
                    self@.lemma_article_by_slug(rows[i as int]);
                }
                return Some(&self.articles[i]);
            }
            i += 1;
        }
        proof {
            let rows = views(self.articles@);
            assert forall|a: ArticleRow| self@.articles.contains(a) implies a.slug != slug@ by {
                let j = choose|j: int| 0 <= j < rows.len() && rows[j] == a;
                assert(self.articles@[j].slug@ != slug@);
            }
        }
        None
    }

    /// Where the article with this id stands.
    fn article_index(&self, id: u128) -> (found: Option<usize>)
        requires
            self.wf(),
        ensures
            found is Some <==> self@.has_article(id),
            found matches Some(i) ==> i < self.articles.len() && self.articles@[i as int].id == id,
    {
        let mut i: usize = 0;
        while i < self.articles.len()
            invariant
                self.wf(),
                i <= self.articles.len(),
                forall|j: int| 0 <= j < i ==> (#[trigger] self.articles@[j]).id != id,
            decreases self.articles.len() - i,
        {
            if self.articles[i].id == id {
                proof {
                    let rows = views(self.articles@);
                    assert(rows[i as int] == self.articles@[i as int]@);
                    assert(rows.contains(rows[i as int]));
                    assert(self@.articles.contains(rows[i as int]));
                }
                return Some(i);
            }
            i += 1;
        }
        proof {
            let rows = views(self.articles@);
            assert forall|a: ArticleRow| self@.articles.contains(a) implies a.id != id by {
                let j = choose|j: int| 0 <= j < rows.len() && rows[j] == a;
                assert(self.articles@[j].id != id);
            }
        }
        None
    }

    /// Whether some article has this id.
    pub fn has_article(&self, id: u128) -> (found: bool)
        requires
            self.wf(),
        ensures
            found == self@.has_article(id),
    {
        self.article_index(id).is_some()
    }

    /// Inserts the row of a new article.
    pub(crate) fn insert_article(&mut self, article: Article) -> (outcome: Result<(), StorageFault>)
        requires
            old(self).wf(),
            article.slug@ == slug_of(article.id, article.title@),
        ensures
            final(self).wf(),
            outcome is Ok <==> !old(self)@.has_article(article.id),
            outcome is Err ==> outcome == Err::<(), StorageFault>(StorageFault::UniqueViolation)
                && final(self)@ == old(self)@,
            outcome is Ok ==> final(self)@ == old(self)@.with_article(article@),
    {
        if self.has_article(article.id) {
            return Err(StorageFault::UniqueViolation);
        }
        proof {
            let rows = views(self.articles@);
            if rows.contains(article@) {
                assert(self@.articles.contains(article@));
            }
            lemma_views_push(self.articles@, article);
            lemma_set_of_push(rows, article@);
        }
        self.articles.push(article);
        proof {
            self.lemma_finite();
        }
        Ok(())
    }

    /// Removes the row of the article with this id, if there is one.
    pub(crate) fn remove_article(&mut self, id: u128)
        requires
            old(self).wf(),
        ensures
            final(self).wf(),
            final(self)@ == old(self)@.without_article(id),
    {
        let ghost keep = |a: ArticleRow| a.id != id;
        match self.article_index(id) {
            Some(i) => {
                proof {
                    let rows = views(self.articles@);
                    lemma_views_remove(self.articles@, i as int);
                    lemma_set_of_remove(rows, i as int);
                    assert(rows.contains(rows[i as int]));
                    assert forall|a: ArticleRow| #[trigger]
                        rows.to_set().contains(a) && a != rows[i as int] implies keep(a) by {
                        assert(self@.articles.contains(a));
                        assert(self@.articles.contains(rows[i as int]));
                    }
                    assert(rows.to_set().remove(rows[i as int]) =~= rows.to_set().filter(keep));
                }
                self.articles.remove(i);
            },
            None => {
                proof {
                    assert(self@.articles =~= self@.articles.filter(keep));
                }
            },
        }
        proof {
            self.lemma_finite();
        }
    }
}

impl Store {
    // ----- tags -----

    /// Where the row of this tag stands.
    fn tag_index(&self, article_id: u128, name: &String) -> (found: Option<usize>)
        requires
            self.wf(),
        ensures
            found is Some <==> self@.tags.contains(TagRow { article_id, tag_name: name@ }),
            found matches Some(i) ==> i < self.tags.len() && self.tags@[i as int]@ == (TagRow {
                article_id,
                tag_name: name@,
            }),
    {
        let ghost row = TagRow { article_id, tag_name: name@ };
        let mut i: usize = 0;
        while i < self.tags.len()
            invariant
                i <= self.tags.len(),
                row == (TagRow { article_id, tag_name: name@ }),
                forall|j: int| 0 <= j < i ==> (#[trigger] self.tags@[j])@ != row,
            decreases self.tags.len() - i,
        {
            if self.tags[i].article_id == article_id && self.tags[i].tag_name == *name {
                proof {
                    let rows = views(self.tags@);
                    assert(rows[i as int] == self.tags@[i as int]@);
                    assert(rows.contains(rows[i as int]));
                }
                return Some(i);
            }
            i += 1;
        }
        proof {
            let rows = views(self.tags@);
            if rows.contains(row) {
                let j = choose|j: int| 0 <= j < rows.len() && rows[j] == row;
                assert(self.tags@[j]@ != row);
            }
        }
        None
    }

    /// Puts a tag on an article. Where the article has the tag already,
    /// nothing changes; either way the answer is the tag's row.
    pub fn add_tag(&mut self, article_id: u128, tag_name: &str) -> (tag: ArticleTag)
        requires
            old(self).wf(),
        ensures
            final(self).wf(),
            final(self)@ == old(self)@.add_tag(article_id, tag_name@),
            tag@ == (TagRow { article_id, tag_name: tag_name@ }),
    {
        let name = String::from_str(tag_name);
        let ghost row = TagRow { article_id, tag_name: tag_name@ };
        if self.tag_index(article_id, &name).is_none() {
            let tag = ArticleTag { article_id, tag_name: name.clone() };
            proof {
                lemma_views_push(self.tags@, tag);
                lemma_set_of_push(views(self.tags@), row);
            }
            self.tags.push(tag);
        } else {
            proof {
                assert(self@.tags.insert(row) =~= self@.tags);
            }
        }
        proof {
            self.lemma_finite();
        }
        ArticleTag { article_id, tag_name: name }
    }

    /// Takes all tags off an article; a no-op where it has none.
    pub fn delete_tags(&mut self, article_id: u128)
        requires
            old(self).wf(),
        ensures
            final(self).wf(),
            final(self)@ == old(self)@.delete_tags(article_id),
    {
        let ghost rows = views(self.tags@);
        let mut kept: Vec<ArticleTag> = Vec::new();
        let mut i: usize = 0;
        proof {
            assert(views(kept@) =~= Seq::empty());
        }
        while i < self.tags.len()
            invariant
                i <= self.tags.len(),
                rows == views(self.tags@),
                rows.no_duplicates(),
                views(kept@).no_duplicates(),
                forall|t: TagRow| #[trigger]
                    views(kept@).contains(t) <==> rows.take(i as int).contains(t) && t.article_id
                        != article_id,
            decreases self.tags.len() - i,
        {
            proof {
                lemma_prefix_step(rows, i as int);
            }
            if self.tags[i].article_id != article_id {
                let tag = ArticleTag {
                    article_id: self.tags[i].article_id,
                    tag_name: self.tags[i].tag_name.clone(),
                };
                proof {
                    assert(tag@ == rows[i as int]);
                    lemma_views_push(kept@, tag);
                    lemma_set_of_push(views(kept@), tag@);
                    lemma_contains_push(views(kept@), tag@);
                }
                kept.push(tag);
            }
            i += 1;
        }
        proof {
            assert(rows.take(rows.len() as int) =~= rows);
            assert(views(kept@).to_set() =~= rows.to_set().filter(
                |t: TagRow| t.article_id != article_id,
            ));
        }
        self.tags = kept;
        proof {
            self.lemma_finite();
        }
    }

    /// The names of the tags on an article, each once, in no order that
    /// callers may rely on.
    pub fn select_tags_on_article(&self, article_id: u128) -> (names: Vec<String>)
        requires
            self.wf(),
        ensures
            names.deep_view().no_duplicates(),
            names.deep_view().to_set() == self@.tag_names(article_id),
    {
        let ghost rows = views(self.tags@);
        let mut names: Vec<String> = Vec::new();
        let mut i: usize = 0;
        while i < self.tags.len()
            invariant
                i <= self.tags.len(),
                rows == views(self.tags@),
                rows.no_duplicates(),
                names.deep_view().no_duplicates(),
                forall|n: Seq<char>| #[trigger]
                    names.deep_view().contains(n) <==> rows.take(i as int).contains(
                        TagRow { article_id, tag_name: n },
                    ),
            decreases self.tags.len() - i,
        {
            proof {
                lemma_prefix_step(rows, i as int);
                assert(rows[i as int] == self.tags@[i as int]@);
            }
            if self.tags[i].article_id == article_id {
                let name = self.tags[i].tag_name.clone();
                let ghost before = names.deep_view();
                let ghost text = name@;
                names.push(name);
                proof {
                    assert(names.deep_view() =~= before.push(text));
                    lemma_set_of_push(before, text);
                    lemma_contains_push(before, text);
                }
            }
            i += 1;
        }
        proof {
            assert(rows.take(rows.len() as int) =~= rows);
            assert(names.deep_view().to_set() =~= self@.tag_names(article_id));
        }
        names
    }

    // ----- favorites -----

    /// Whether the user has favorited the article.
    pub fn get_favorited(&self, article_id: u128, user_id: u128) -> (favorited: bool)
        requires
            self.wf(),
        ensures
            favorited == self@.favorited(article_id, user_id),
    {
        self.favorite_index(article_id, user_id).is_some()
    }

    /// Where the row of this favorite stands.
    fn favorite_index(&self, article_id: u128, user_id: u128) -> (found: Option<usize>)
        requires
            self.wf(),
        ensures
            found is Some <==> self@.favorited(article_id, user_id),
            found matches Some(i) ==> i < self.favorites.len() && self.favorites@[i as int] == (
            Favorite { user_id, article_id }),
    {
        let mut i: usize = 0;
        while i < self.favorites.len()
            invariant
                i <= self.favorites.len(),
                forall|j: int|
                    0 <= j < i ==> #[trigger] self.favorites@[j] != (Favorite {
                        user_id,
                        article_id,
                    }),
            decreases self.favorites.len() - i,
        {
            if self.favorites[i].user_id == user_id && self.favorites[i].article_id == article_id {
                proof {
                    assert(self.favorites@.contains(self.favorites@[i as int]));
                }
                return Some(i);
            }
            i += 1;
        }
        None
    }

    /// How many users have favorited the article.
    pub fn get_favorites_count(&self, article_id: u128) -> (count: usize)
        requires
            self.wf(),
        ensures
            count == self@.favorites_count(article_id),
    {
        let ghost rows = self.favorites@;
        let ghost of_article = |f: Favorite| f.article_id == article_id;
        let mut count: usize = 0;
        let mut i: usize = 0;
        proof {
            assert(rows.take(0).to_set().filter(of_article) =~= Set::empty());
        }
        while i < self.favorites.len()
            invariant
                i <= self.favorites.len(),
                rows == self.favorites@,
                rows.no_duplicates(),
                of_article == (|f: Favorite| f.article_id == article_id),
                count <= i,
                count == rows.take(i as int).to_set().filter(of_article).len(),
            decreases self.favorites.len() - i,
        {
            proof {
                lemma_set_of_prefix(rows, i as int);
                let before = rows.take(i as int).to_set();
                let after = rows.take(i + 1).to_set();
                if of_article(rows[i as int]) {
                    assert(after.filter(of_article) =~= before.filter(of_article).insert(
                        rows[i as int],
                    ));
                } else {
                    assert(after.filter(of_article) =~= before.filter(of_article));
                }
            }
            if self.favorites[i].article_id == article_id {
                count += 1;
            }
            i += 1;
        }
        proof {
            assert(rows.take(rows.len() as int) =~= rows);
        }
        count
    }

    /// Records that the user favorited the article; a second favorite by
    /// the same user is rejected and changes nothing.
    pub fn insert_favorite(&mut self, user_id: u128, article_id: u128) -> (outcome: Result<
        (),
        StorageFault,
    >)
        requires
            old(self).wf(),
        ensures
            final(self).wf(),
            outcome is Ok <==> !old(self)@.favorited(article_id, user_id),
            outcome is Err ==> outcome == Err::<(), StorageFault>(StorageFault::UniqueViolation)
                && final(self)@ == old(self)@,
            outcome is Ok ==> final(self)@ == old(self)@.with_favorite(user_id, article_id),
    {
        if self.get_favorited(article_id, user_id) {
            return Err(StorageFault::UniqueViolation);
        }
        proof {
            lemma_set_of_push(self.favorites@, Favorite { user_id, article_id });
        }
        self.favorites.push(Favorite { user_id, article_id });
        proof {
            self.lemma_finite();
        }
        Ok(())
    }

    /// Withdraws the user's favorite of the article, if there is one.
    pub fn delete_favorite(&mut self, user_id: u128, article_id: u128)
        requires
            old(self).wf(),
        ensures
            final(self).wf(),
            final(self)@ == old(self)@.without_favorite(user_id, article_id),
    {
        match self.favorite_index(article_id, user_id) {
            Some(i) => {
                proof {
                    lemma_set_of_remove(self.favorites@, i as int);
                }
                self.favorites.remove(i);
            },
            None => {
                proof {
                    assert(self@.favorites.remove(Favorite { user_id, article_id })
                        =~= self@.favorites);
                }
            },
        }
        proof {
            self.lemma_finite();
        }
    }

    /// Withdraws every favorite of the article; a no-op where it has none.
    pub fn delete_favorites(&mut self, article_id: u128)
        requires
            old(self).wf(),
        ensures
            final(self).wf(),
            final(self)@ == old(self)@.delete_favorites(article_id),
    {
        let ghost rows = self.favorites@;
        let mut kept: Vec<Favorite> = Vec::new();
        let mut i: usize = 0;
        while i < self.favorites.len()
            invariant
                i <= self.favorites.len(),
                rows == self.favorites@,
                rows.no_duplicates(),
                kept@.no_duplicates(),
                forall|f: Favorite| #[trigger]
                    kept@.contains(f) <==> rows.take(i as int).contains(f) && f.article_id
                        != article_id,
            decreases self.favorites.len() - i,
        {
            proof {
                lemma_prefix_step(rows, i as int);
            }
            if self.favorites[i].article_id != article_id {
                proof {
                    lemma_set_of_push(kept@, rows[i as int]);
                    lemma_contains_push(kept@, rows[i as int]);
                }
                kept.push(self.favorites[i]);
            }
            i += 1;
        }
        proof {
            assert(rows.take(rows.len() as int) =~= rows);
            assert(kept@.to_set() =~= rows.to_set().filter(
                |f: Favorite| f.article_id != article_id,
            ));
        }
        self.favorites = kept;
        proof {
            self.lemma_finite();
        }
    }
}

} // verus!
