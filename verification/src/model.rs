//! The relational model: five tables as sets of rows, and what each
//! operation of the store makes of them.

use vstd::prelude::*;
use crate::error::Error;
use crate::rows::{ArticleRow, Draft, Favorite, Follow, Patch, Projection, TagRow, UserRow};
use crate::slug::{lemma_slugs_differ, slug_of};

verus! {

/// The contents of the store.
#[verifier::ext_equal]
pub struct Tables {
    pub users: Set<UserRow>,
    pub articles: Set<ArticleRow>,
    pub tags: Set<TagRow>,
    pub favorites: Set<Favorite>,
    pub followers: Set<Follow>,
}

/// The tables after an operation, and what the operation returned.
pub struct Outcome<T> {
    pub tables: Tables,
    pub result: Result<T, Error>,
}

impl Tables {
    /// The store with nothing in it.
    pub open spec fn empty() -> Tables {
        Tables {
            users: Set::empty(),
            articles: Set::empty(),
            tags: Set::empty(),
            favorites: Set::empty(),
            followers: Set::empty(),
        }
    }

    /// What holds of the tables at all times: they are finite, an id names
    /// at most one user and at most one article, every slug is the one its
    /// article's id and title generate, and nobody follows themselves.
    pub open spec fn wf(self) -> bool {
        &&& self.users.finite()
        &&& self.articles.finite()
        &&& self.tags.finite()
        &&& self.favorites.finite()
        &&& self.followers.finite()
        &&& forall|u: UserRow, v: UserRow|
            #![trigger self.users.contains(u), self.users.contains(v)]
            self.users.contains(u) && self.users.contains(v) && u.id == v.id ==> u == v
        &&& forall|a: ArticleRow, b: ArticleRow|
            #![trigger self.articles.contains(a), self.articles.contains(b)]
            self.articles.contains(a) && self.articles.contains(b) && a.id == b.id ==> a == b
        &&& forall|a: ArticleRow| #[trigger]
            self.articles.contains(a) ==> a.slug == slug_of(a.id, a.title)
        &&& forall|f: Follow| #[trigger] self.followers.contains(f) ==> f.follower_id != f.user_id
    }

    // ----- lookups -----

    /// Some user has this id.
    pub open spec fn has_user(self, id: u128) -> bool {
        exists|u: UserRow| #[trigger] self.users.contains(u) && u.id == id
    }

    /// The user with this id, where there is one.
    pub open spec fn user(self, id: u128) -> UserRow {
        choose|u: UserRow| #[trigger] self.users.contains(u) && u.id == id
    }

    /// Some article has this id.
    pub open spec fn has_article(self, id: u128) -> bool {
        exists|a: ArticleRow| #[trigger] self.articles.contains(a) && a.id == id
    }

    /// The article that goes by this slug.
    pub open spec fn article_by_slug(self, slug: Seq<char>) -> Option<ArticleRow> {
        if exists|a: ArticleRow| #[trigger] self.articles.contains(a) && a.slug == slug {
            Some(choose|a: ArticleRow| #[trigger] self.articles.contains(a) && a.slug == slug)
        } else {
            None
        }
    }

    /// The article that goes by this slug, joined with its author: nothing
    /// where no article has the slug, or its author has no user row.
    pub open spec fn lookup(self, slug: Seq<char>) -> Option<(ArticleRow, UserRow)> {
        match self.article_by_slug(slug) {
            Some(article) => if self.has_user(article.author_id) {
                Some((article, self.user(article.author_id)))
            } else {
                None
            },
            None => None,
        }
    }

    /// A slug names at most one article: the id token in front of it
    /// tells two articles apart.
    pub proof fn lemma_slug_unique(self, a: ArticleRow, b: ArticleRow)
        requires
            self.wf(),
            self.articles.contains(a),
            self.articles.contains(b),
            a.slug == b.slug,
        ensures
            a == b,
    {
        if a.id != b.id {
            lemma_slugs_differ(a.id, b.id, a.title, b.title);
        }
    }

    /// A stored article is the one that its slug finds.
    pub proof fn lemma_article_by_slug(self, a: ArticleRow)
        requires
            self.wf(),
            self.articles.contains(a),
        ensures
            self.article_by_slug(a.slug) == Some(a),
            self.has_article(a.id),
    {
        let found = choose|b: ArticleRow| #[trigger] self.articles.contains(b) && b.slug == a.slug;
        self.lemma_slug_unique(a, found);
    }

    /// A stored user is the one that their id finds.
    pub proof fn lemma_user(self, u: UserRow)
        requires
            self.wf(),
            self.users.contains(u),
        ensures
            self.has_user(u.id),
            self.user(u.id) == u,
    {
    }

    // ----- single statements -----

    /// The tables with one more user.
    pub open spec fn with_user(self, user: UserRow) -> Tables {
        Tables { users: self.users.insert(user), ..self }
    }

    /// The tables with one more follow.
    pub open spec fn with_follow(self, follower_id: u128, user_id: u128) -> Tables {
        Tables { followers: self.followers.insert(Follow { follower_id, user_id }), ..self }
    }

    /// The tables with one more article.
    pub open spec fn with_article(self, article: ArticleRow) -> Tables {
        Tables { articles: self.articles.insert(article), ..self }
    }

    /// The tables without the article that has this id.
    pub open spec fn without_article(self, id: u128) -> Tables {
        Tables { articles: self.articles.filter(|a: ArticleRow| a.id != id), ..self }
    }

    /// The tables with the user's favorite of the article.
    pub open spec fn with_favorite(self, user_id: u128, article_id: u128) -> Tables {
        Tables { favorites: self.favorites.insert(Favorite { user_id, article_id }), ..self }
    }

    /// The tables without the user's favorite of the article.
    pub open spec fn without_favorite(self, user_id: u128, article_id: u128) -> Tables {
        Tables { favorites: self.favorites.remove(Favorite { user_id, article_id }), ..self }
    }

    // ----- tags -----

    /// The names of the tags on an article.
    pub open spec fn tag_names(self, article_id: u128) -> Set<Seq<char>> {
        Set::new(|name: Seq<char>| self.tags.contains(TagRow { article_id, tag_name: name }))
    }

    /// Insert-or-ignore of one tag.
    pub open spec fn add_tag(self, article_id: u128, name: Seq<char>) -> Tables {
        Tables { tags: self.tags.insert(TagRow { article_id, tag_name: name }), ..self }
    }

    /// All tags of the article are gone; those of other articles stay.
    pub open spec fn delete_tags(self, article_id: u128) -> Tables {
        Tables { tags: self.tags.filter(|t: TagRow| t.article_id != article_id), ..self }
    }

    /// The tags of the article are exactly `names`; those of other articles stay.
    pub open spec fn replace_tags(self, article_id: u128, names: Seq<Seq<char>>) -> Tables {
        Tables {
            tags: Set::new(
                |t: TagRow|
                    if t.article_id == article_id {
                        names.contains(t.tag_name)
                    } else {
                        self.tags.contains(t)
                    },
            ),
            ..self
        }
    }

    /// Replacing the tags by none is deleting them.
    pub proof fn lemma_replace_none(self, article_id: u128)
        ensures
            self.replace_tags(article_id, Seq::empty()) == self.delete_tags(article_id),
    {
        assert(self.replace_tags(article_id, Seq::empty()) =~= self.delete_tags(article_id));
    }

    /// Replacing the tags by one name more is replacing them and then
    /// adding that name.
    pub proof fn lemma_replace_push(self, article_id: u128, names: Seq<Seq<char>>, name: Seq<char>)
        ensures
            self.replace_tags(article_id, names.push(name)) == self.replace_tags(
                article_id,
                names,
            ).add_tag(article_id, name),
    {
        crate::seqs::lemma_contains_push(names, name);
        assert(self.replace_tags(article_id, names.push(name)) =~= self.replace_tags(
            article_id,
            names,
        ).add_tag(article_id, name));
    }

    // ----- favorites and followers -----

    /// The viewer has favorited the article.
    pub open spec fn favorited(self, article_id: u128, viewer_id: u128) -> bool {
        self.favorites.contains(Favorite { user_id: viewer_id, article_id })
    }

    /// How many users have favorited the article.
    pub open spec fn favorites_count(self, article_id: u128) -> nat {
        self.favorites.filter(|f: Favorite| f.article_id == article_id).len()
    }

    /// The viewer follows the author.
    pub open spec fn following(self, author_id: u128, viewer_id: u128) -> bool {
        self.followers.contains(Follow { follower_id: viewer_id, user_id: author_id })
    }

    /// All favorites of the article are gone; those of other articles stay.
    pub open spec fn delete_favorites(self, article_id: u128) -> Tables {
        Tables { favorites: self.favorites.filter(|f: Favorite| f.article_id != article_id), ..self }
    }

    // ----- projections -----

    /// The article as the tables show it, with the two flags given.
    pub open spec fn project(
        self,
        article: ArticleRow,
        author: UserRow,
        favorited: bool,
        following: bool,
    ) -> Projection {
        Projection::assemble(
            article,
            author,
            self.tag_names(article.id),
            favorited,
            self.favorites_count(article.id),
            following,
        )
    }

    /// The article as `viewer` sees it: an anonymous viewer has favorited
    /// nothing and follows nobody.
    pub open spec fn project_for(
        self,
        article: ArticleRow,
        author: UserRow,
        viewer: Option<u128>,
    ) -> Projection {
        match viewer {
            Some(id) => self.project(
                article,
                author,
                self.favorited(article.id, id),
                self.following(author.id, id),
            ),
            None => self.project(article, author, false, false),
        }
    }

    // ----- the six operations -----

    /// The row that `create` inserts.
    pub open spec fn new_row(id: u128, author_id: u128, draft: Draft, now: i64) -> ArticleRow {
        ArticleRow {
            id,
            slug: slug_of(id, draft.title),
            title: draft.title,
            description: draft.description,
            body: draft.body,
            author_id,
            created_at: now,
            updated_at: now,
        }
    }

    /// Create: a conflict where the id is taken; else the row is inserted,
    /// the tags are set, and the author sees their own article, which nobody
    /// has favorited yet.
    pub open spec fn create(self, id: u128, author: UserRow, draft: Draft, now: i64) -> Outcome<
        Projection,
    > {
        if self.has_article(id) {
            Outcome { tables: self, result: Err(Error::Conflict) }
        } else {
            let row = Self::new_row(id, author.id, draft, now);
            let tables = self.with_article(row).replace_tags(id, draft.tags);
            Outcome {
                tables,
                result: Ok(
                    Projection::assemble(row, author, tables.tag_names(id), false, 0, false),
                ),
            }
        }
    }

    /// Read: nothing changes.
    pub open spec fn get(self, slug: Seq<char>, viewer: Option<u128>) -> Result<Projection, Error> {
        match self.lookup(slug) {
            Some((article, author)) => Ok(self.project_for(article, author, viewer)),
            None => Err(Error::NotFound),
        }
    }

    /// The row after a partial update at time `now`: a new title brings a new
    /// slug under the same id; a field the patch leaves out stays.
    pub open spec fn patched(row: ArticleRow, patch: Patch, now: i64) -> ArticleRow {
        ArticleRow {
            slug: match patch.title {
                Some(title) => slug_of(row.id, title),
                None => row.slug,
            },
            title: match patch.title {
                Some(title) => title,
                None => row.title,
            },
            description: match patch.description {
                Some(description) => description,
                None => row.description,
            },
            body: match patch.body {
                Some(body) => body,
                None => row.body,
            },
            updated_at: now,
            ..row
        }
    }

    /// Update: only the author may; nothing changes otherwise.
    pub open spec fn update(self, slug: Seq<char>, viewer: UserRow, patch: Patch, now: i64) -> Outcome<
        Projection,
    > {
        match self.article_by_slug(slug) {
            None => Outcome { tables: self, result: Err(Error::NotFound) },
            Some(row) => if viewer.id != row.author_id {
                Outcome { tables: self, result: Err(Error::Forbidden) }
            } else {
                let changed = Self::patched(row, patch, now);
                let rows = self.without_article(row.id).with_article(changed);
                let tables = match patch.tags {
                    Some(names) => rows.replace_tags(row.id, names),
                    None => rows,
                };
                Outcome {
                    tables,
                    result: Ok(
                        tables.project(changed, viewer, tables.favorited(row.id, viewer.id), false),
                    ),
                }
            },
        }
    }

    /// Delete: only the author may; the article goes with all its tags and
    /// all its favorites. Nothing changes otherwise.
    pub open spec fn delete(self, slug: Seq<char>, viewer_id: u128) -> Outcome<()> {
        match self.article_by_slug(slug) {
            None => Outcome { tables: self, result: Err(Error::NotFound) },
            Some(row) => if viewer_id != row.author_id {
                Outcome { tables: self, result: Err(Error::Forbidden) }
            } else {
                Outcome {
                    tables: self.delete_tags(row.id).delete_favorites(row.id).without_article(
                        row.id,
                    ),
                    result: Ok(()),
                }
            },
        }
    }

    /// Favorite: a conflict where the viewer has favorited the article
    /// already.
    pub open spec fn favorite(self, slug: Seq<char>, viewer_id: u128) -> Outcome<Projection> {
        match self.lookup(slug) {
            None => Outcome { tables: self, result: Err(Error::NotFound) },
            Some((article, author)) => if self.favorited(article.id, viewer_id) {
                Outcome { tables: self, result: Err(Error::Conflict) }
            } else {
                let tables = self.with_favorite(viewer_id, article.id);
                Outcome { tables, result: Ok(tables.project_for(article, author, Some(viewer_id))) }
            },
        }
    }

    /// Unfavorite: the viewer's favorite goes, if there was one.
    pub open spec fn unfavorite(self, slug: Seq<char>, viewer_id: u128) -> Outcome<Projection> {
        match self.lookup(slug) {
            None => Outcome { tables: self, result: Err(Error::NotFound) },
            Some((article, author)) => {
                let tables = self.without_favorite(viewer_id, article.id);
                Outcome { tables, result: Ok(tables.project_for(article, author, Some(viewer_id))) }
            },
        }
    }
}

} // verus!
