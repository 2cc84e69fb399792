//! The six operations on articles: create, read, update, delete, favorite
//! and unfavorite.
//!
//! Each is specified by the function of the same name on the model: the
//! tables afterwards and the result are the model's, for every input.

use vstd::prelude::*;
use crate::error::{Error, StorageFault};
use crate::model::Tables;
use crate::rows::{
    opt_text, result_view, Article, ArticleResponse, ArticleRow, ArticleUpdate, Draft, Favorite,
    NewArticle, Patch, User,
};
use crate::seqs::views;
use crate::slug::{generate_slug, slug_of};
use crate::statements::{cascade, tag_replacement, Change, Statement};
use crate::store::Store;

verus! {

/// Only the author of an article may change or delete it.
pub fn authorize(viewer_id: u128, author_id: u128) -> (verdict: Result<(), Error>)
    ensures
        verdict is Ok <==> viewer_id == author_id,
        verdict matches Err(error) ==> error == Error::Forbidden,
{
    if viewer_id != author_id {
        Err(Error::Forbidden)
    } else {
        Ok(())
    }
}

/// Calls `uuid::Uuid::new_v4` and hands the UUID out as its 128-bit value.
/// Trusted: nothing is claimed of the result, which is random. The call
/// gives up only where the operating system has no random bytes to give.
#[verifier::external_body]
fn fresh_id() -> (id: u128) {
    uuid::Uuid::new_v4().as_u128()
}

impl NewArticle {
    /// The row of the new article under the given id, and the tags to set
    /// on it: the slug is the one that the id and the title generate, and
    /// both timestamps are `now`.
    fn into_row(self, id: u128, author_id: u128, now: i64) -> (parts: (Article, Vec<String>))
        ensures
            parts.0@ == Tables::new_row(id, author_id, self@, now),
            parts.1 == self.tag_list,
    {
        let NewArticle { title, description, body, tag_list } = self;
        let slug = generate_slug(id, title.as_str());
        let row = Article {
            id,
            slug,
            title,
            description,
            body,
            author_id,
            created_at: now,
            updated_at: now,
        };
        (row, tag_list)
    }

    /// The row of the new article and the statements that create it: insert
    /// the row, then set its tags.
    pub fn plan(self, id: u128, author_id: u128, now: i64) -> (parts: (Article, Vec<Statement>))
        ensures
            parts.0@ == Tables::new_row(id, author_id, self@, now),
            views(parts.1@) == Draft::changes(parts.0@, self@.tags),
    {
        let (row, tag_list) = self.into_row(id, author_id, now);
        let mut statements: Vec<Statement> = Vec::new();
        statements.push(Statement::InsertArticle(row.duplicate()));
        let mut tags = tag_replacement(id, &tag_list);
        proof {
            assert(views(statements@) =~= seq![Change::InsertArticle(row@)]);
        }
        append_statements(&mut statements, &mut tags);
        (row, statements)
    }
}

impl Draft {
    /// What creating an article does: insert the row, then set its tags.
    pub open spec fn changes(row: ArticleRow, tags: Seq<Seq<char>>) -> Seq<Change> {
        seq![Change::InsertArticle(row)] + Change::tag_replacement(row.id, tags)
    }
}

impl Patch {
    /// What updating an article does: write the changed row, then replace
    /// its tags where the update lists tags.
    pub open spec fn changes(self, changed: ArticleRow) -> Seq<Change> {
        seq![Change::UpdateArticle(changed)] + match self.tags {
            Some(names) => Change::tag_replacement(changed.id, names),
            None => Seq::empty(),
        }
    }
}

/// Moves the statements of `more` behind those of `plan`.
fn append_statements(plan: &mut Vec<Statement>, more: &mut Vec<Statement>)
    ensures
        views(final(plan)@) == views(old(plan)@) + views(old(more)@),
{
    plan.append(more);
    proof {
        assert(views(plan@) =~= views(old(plan)@) + views(old(more)@));
    }
}

/// The statements that delete an article on behalf of a viewer: the
/// cascade where the viewer is the author, `Forbidden` where not.
pub fn plan_delete(viewer_id: u128, article: &Article) -> (planned: Result<Vec<Statement>, Error>)
    ensures
        planned is Ok <==> viewer_id == article.author_id,
        planned matches Err(error) ==> error == Error::Forbidden,
        planned matches Ok(plan) ==> views(plan@) == Change::cascade(article.id),
{
    match authorize(viewer_id, article.author_id) {
        Ok(()) => Ok(cascade(article.id)),
        Err(error) => Err(error),
    }
}

impl ArticleUpdate {
    /// The slug that this update gives the article: a new one, from the
    /// article's own id, where the title changes; none where it does not.
    pub fn new_slug(&self, article_id: u128) -> (slug: Option<String>)
        ensures
            opt_text(slug) == match self@.title {
                Some(title) => Some(slug_of(article_id, title)),
                None => None,
            },
    {
        match &self.title {
            Some(title) => Some(generate_slug(article_id, title.as_str())),
            None => None,
        }
    }

    /// The row after this update at time `now`: the fields that the update
    /// names are taken from it, the others from the row.
    pub fn apply(&self, article: &Article, now: i64) -> (changed: Article)
        ensures
            changed@ == Tables::patched(article@, self@, now),
    {
        Article {
            id: article.id,
            slug: match self.new_slug(article.id) {
                Some(slug) => slug,
                None => article.slug.clone(),
            },
            title: match &self.title {
                Some(title) => title.clone(),
                None => article.title.clone(),
            },
            description: match &self.description {
                Some(description) => description.clone(),
                None => article.description.clone(),
            },
            body: match &self.body {
                Some(body) => body.clone(),
                None => article.body.clone(),
            },
            author_id: article.author_id,
            created_at: article.created_at,
            updated_at: now,
        }
    }

    /// The changed row and the statements that update an article on behalf
    /// of a viewer: `Forbidden` where the viewer is not the author; else
    /// write the changed row, then replace the tags where the update lists
    /// tags.
    pub fn plan(&self, viewer_id: u128, article: &Article, now: i64) -> (planned: Result<
        (Article, Vec<Statement>),
        Error,
    >)
        ensures
            planned is Ok <==> viewer_id == article.author_id,
            planned matches Err(error) ==> error == Error::Forbidden,
            planned matches Ok(parts) ==> parts.0@ == Tables::patched(article@, self@, now)
                && views(parts.1@) == self@.changes(parts.0@),
    {
        match authorize(viewer_id, article.author_id) {
            Ok(()) => {},
            Err(error) => {
                return Err(error);
            },
        }
        let changed = self.apply(article, now);
        let mut statements: Vec<Statement> = Vec::new();
        statements.push(Statement::UpdateArticle(changed.duplicate()));
        proof {
            assert(views(statements@) =~= seq![Change::UpdateArticle(changed@)]);
        }
        match &self.tag_list {
            Some(names) => {
                let mut tags = tag_replacement(changed.id, names);
                append_statements(&mut statements, &mut tags);
            },
            None => {
                proof {
                    assert(views(statements@) =~= self@.changes(changed@));
                }
            },
        }
        Ok((changed, statements))
    }
}

impl Store {
    /// The article that goes by this slug, joined with its author.
    pub fn find_article_with_author(&self, slug: &str) -> (found: Result<(&Article, &User), Error>)
        requires
            self.wf(),
        ensures
            found is Ok <==> self@.lookup(slug@) is Some,
            found matches Ok(pair) ==> self@.lookup(slug@) == Some((pair.0@, pair.1@)),
            found matches Err(error) ==> error == Error::NotFound,
    {
        let article = match self.find_article(slug) {
            Some(article) => article,
            None => {
                return Err(Error::from_fault(StorageFault::NoRow));
            },
        };
        match self.find_user(article.author_id) {
            Some(author) => Ok((article, author)),
            None => Err(Error::from_fault(StorageFault::NoRow)),
        }
    }

    /// The article as a viewer sees it now.
    fn respond(&self, article: &Article, author: &User, viewer: Option<u128>) -> (response:
        ArticleResponse)
        requires
            self.wf(),
        ensures
            response@ == self@.project_for(article@, author@, viewer),
            response.wf(),
    {
        let flags = self.annotate(article.id, author.id, viewer);
        let favorites_count = self.get_favorites_count(article.id);
        let tags = self.select_tags_on_article(article.id);
        ArticleResponse::assemble(article, author, tags, flags.0, favorites_count, flags.1)
    }

    /// Creates an article under the given id.
    ///
    /// Fails with `Conflict`, changing nothing, where the id is taken.
    /// Otherwise the row is inserted with the slug that the id and the title
    /// generate and both timestamps at `now`, the tags are set, and the
    /// response shows the article as its author sees it: not favorited, no
    /// favorites, author not followed.
    pub fn create_article_with_id(
        &mut self,
        id: u128,
        author: &User,
        article: NewArticle,
        now: i64,
    ) -> (result: Result<ArticleResponse, Error>)
        requires
            old(self).wf(),
        ensures
            final(self).wf(),
            final(self)@ == old(self)@.create(id, author@, article@, now).tables,
            result_view(result) == old(self)@.create(id, author@, article@, now).result,
            result matches Ok(response) ==> response.wf(),
    {
        let ghost draft = article@;
        let (row, plan) = article.plan(id, author.id, now);
        proof {
            let insert = Change::InsertArticle(row@);
            let tags = Change::tag_replacement(id, draft.tags);
            self@.lemma_run_after(insert, tags);
            self@.with_article(row@).lemma_run_tag_replacement(id, draft.tags);
        }
        match self.run(&plan) {
            Ok(()) => {},
            Err(fault) => {
                return Err(Error::from_fault(fault));
            },
        }
        let tags = self.select_tags_on_article(id);
        Ok(ArticleResponse::assemble(&row, author, tags, false, 0, false))
    }

    /// Creates an article under a fresh random id: whatever id was drawn,
    /// the tables and the result are those of
    /// [`create_article_with_id`](Store::create_article_with_id) for it.
    pub fn create_article(&mut self, author: &User, article: NewArticle, now: i64) -> (result:
        Result<ArticleResponse, Error>)
        requires
            old(self).wf(),
        ensures
            final(self).wf(),
            exists|id: u128|
                {
                    let outcome = #[trigger] old(self)@.create(id, author@, article@, now);
                    final(self)@ == outcome.tables && result_view(result) == outcome.result
                },
            result matches Ok(response) ==> response.wf(),
    {
        let id = fresh_id();
        self.create_article_with_id(id, author, article, now)
    }

    /// Reads the article that goes by `slug` as `viewer` sees it.
    ///
    /// Fails with `NotFound` exactly where no article with that slug can be
    /// joined with its author.
    pub fn get_article(&self, slug: &str, viewer: Option<u128>) -> (result: Result<
        ArticleResponse,
        Error,
    >)
        requires
            self.wf(),
        ensures
            result_view(result) == self@.get(slug@, viewer),
            result matches Ok(response) ==> response.wf(),
    {
        match self.find_article_with_author(slug) {
            Ok((article, author)) => Ok(self.respond(article, author, viewer)),
            Err(error) => Err(error),
        }
    }

    /// Updates the article that goes by `slug` on behalf of `viewer`.
    ///
    /// Fails with `NotFound` where no article has that slug and with
    /// `Forbidden` where the viewer is not its author; nothing changes then.
    /// Otherwise the fields that the update names change, a new title
    /// brings a new slug under the same id, `updated_at` becomes `now`, and
    /// the tags are replaced where the update lists tags.
    pub fn update_article(
        &mut self,
        slug: &str,
        viewer: &User,
        update: ArticleUpdate,
        now: i64,
    ) -> (result: Result<ArticleResponse, Error>)
        requires
            old(self).wf(),
        ensures
            final(self).wf(),
            final(self)@ == old(self)@.update(slug@, viewer@, update@, now).tables,
            result_view(result) == old(self)@.update(slug@, viewer@, update@, now).result,
            result matches Ok(response) ==> response.wf(),
    {
        let article = match self.find_article(slug) {
            Some(article) => article.duplicate(),
            None => {
                return Err(Error::from_fault(StorageFault::NoRow));
            },
        };
        let (changed, plan) = match update.plan(viewer.id, &article, now) {
            Ok(parts) => parts,
            Err(error) => {
                return Err(error);
            },
        };
        proof {
            let write = Change::UpdateArticle(changed@);
            assert(self@.articles.contains(article@)) by {
                let found = choose|a: ArticleRow| #[trigger]
                    self@.articles.contains(a) && a.slug == slug@;
            }
            self@.lemma_article_by_slug(article@);
            let rows = self@.without_article(article.id).with_article(changed@);
            match update@.tags {
                Some(names) => {
                    self@.lemma_run_after(write, Change::tag_replacement(article.id, names));
                    rows.lemma_run_tag_replacement(article.id, names);
                },
                None => {
                    self@.lemma_run_after(write, Seq::empty());
                },
            }
        }
        match self.run(&plan) {
            Ok(()) => {},
            Err(fault) => {
                return Err(Error::from_fault(fault));
            },
        }
        let tags = self.select_tags_on_article(article.id);
        let favorites_count = self.get_favorites_count(article.id);
        let favorited = self.get_favorited(article.id, viewer.id);
        Ok(ArticleResponse::assemble(&changed, viewer, tags, favorited, favorites_count, false))
    }

    /// Deletes the article that goes by `slug` on behalf of the viewer.
    ///
    /// Fails with `NotFound` where no article has that slug and with
    /// `Forbidden` where the viewer is not its author; nothing changes then.
    /// Otherwise its tags go first, then its favorites, then the article.
    pub fn delete_article(&mut self, slug: &str, viewer_id: u128) -> (result: Result<(), Error>)
        requires
            old(self).wf(),
        ensures
            final(self).wf(),
            final(self)@ == old(self)@.delete(slug@, viewer_id).tables,
            result == old(self)@.delete(slug@, viewer_id).result,
    {
        let plan = match self.find_article(slug) {
            Some(article) => match plan_delete(viewer_id, article) {
                Ok(plan) => plan,
                Err(error) => {
                    return Err(error);
                },
            },
            None => {
                return Err(Error::from_fault(StorageFault::NoRow));
            },
        };
        proof {
            let id = self@.article_by_slug(slug@)->Some_0.id;
            self@.lemma_run_cascade(id);
        }
        match self.run(&plan) {
            Ok(()) => Ok(()),
            Err(fault) => Err(Error::from_fault(fault)),
        }
    }

    /// Records that the viewer favorited the article that goes by `slug`.
    ///
    /// Fails with `NotFound` where the article cannot be found with its
    /// author, and with `Conflict` where the viewer has favorited it
    /// already; nothing changes then.
    pub fn favorite_article(&mut self, slug: &str, viewer_id: u128) -> (result: Result<
        ArticleResponse,
        Error,
    >)
        requires
            old(self).wf(),
        ensures
            final(self).wf(),
            final(self)@ == old(self)@.favorite(slug@, viewer_id).tables,
            result_view(result) == old(self)@.favorite(slug@, viewer_id).result,
            result matches Ok(response) ==> response.wf(),
    {
        let (article, author) = match self.find_article_with_author(slug) {
            Ok((article, author)) => (article.duplicate(), author.duplicate()),
            Err(error) => {
                return Err(error);
            },
        };
        let favorite = Favorite { user_id: viewer_id, article_id: article.id };
        match self.execute(&Statement::InsertFavorite(favorite)) {
            Ok(()) => {},
            Err(fault) => {
                return Err(Error::from_fault(fault));
            },
        }
        Ok(self.respond(&article, &author, Some(viewer_id)))
    }

    /// Withdraws the viewer's favorite of the article that goes by `slug`;
    /// where there was none, nothing changes.
    ///
    /// Fails with `NotFound` where the article cannot be found with its
    /// author.
    pub fn unfavorite_article(&mut self, slug: &str, viewer_id: u128) -> (result: Result<
        ArticleResponse,
        Error,
    >)
        requires
            old(self).wf(),
        ensures
            final(self).wf(),
            final(self)@ == old(self)@.unfavorite(slug@, viewer_id).tables,
            result_view(result) == old(self)@.unfavorite(slug@, viewer_id).result,
            result matches Ok(response) ==> response.wf(),
    {
        let (article, author) = match self.find_article_with_author(slug) {
            Ok((article, author)) => (article.duplicate(), author.duplicate()),
            Err(error) => {
                return Err(error);
            },
        };
        let favorite = Favorite { user_id: viewer_id, article_id: article.id };
        match self.execute(&Statement::DeleteFavorite(favorite)) {
            Ok(()) => {},
            Err(fault) => {
                return Err(Error::from_fault(fault));
            },
        }
        Ok(self.respond(&article, &author, Some(viewer_id)))
    }
}

} // verus!
