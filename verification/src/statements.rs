//! Statements: the single changes that an operation makes to the tables,
//! in the order in which it makes them.
//!
//! An operation plans its statements from what it has read; whoever holds
//! the tables runs them one by one and stops at the first that fails. The
//! store runs them on its own vectors; a service on a database runs the
//! same plan there.

use vstd::prelude::*;
use crate::error::StorageFault;
use crate::model::Tables;
use crate::rows::{Article, ArticleRow, Favorite};
use crate::seqs::views;
use crate::slug::{generate_slug, slug_of};
use crate::store::Store;

verus! {

/// One change to one table.
#[derive(Debug, Clone, PartialEq, Eq)]
pub enum Statement {
    /// Insert the row of a new article; rejected where its slug is not the
    /// one that its id and title generate, or the id is taken.
    InsertArticle(Article),
    /// Replace the row of the article with the same id; rejected where
    /// the slug of the new row is not the one that its id and title
    /// generate, or no article has the id.
    UpdateArticle(Article),
    /// Delete the row of the article with this id, if there is one.
    DeleteArticle(u128),
    /// Put the tag on the article, unless it is there already.
    AddTag(u128, String),
    /// Take all tags off the article.
    DeleteTags(u128),
    /// Record the favorite; rejected where it is recorded already.
    InsertFavorite(Favorite),
    /// Withdraw the favorite, if it is recorded.
    DeleteFavorite(Favorite),
    /// Withdraw all favorites of the article.
    DeleteFavorites(u128),
}

/// The view of a [`Statement`].
pub enum Change {
    InsertArticle(ArticleRow),
    UpdateArticle(ArticleRow),
    DeleteArticle(u128),
    AddTag(u128, Seq<char>),
    DeleteTags(u128),
    InsertFavorite(Favorite),
    DeleteFavorite(Favorite),
    DeleteFavorites(u128),
}

impl View for Statement {
    type V = Change;

    open spec fn view(&self) -> Change {
        match self {
            Statement::InsertArticle(article) => Change::InsertArticle(article@),
            Statement::UpdateArticle(article) => Change::UpdateArticle(article@),
            Statement::DeleteArticle(id) => Change::DeleteArticle(*id),
            Statement::AddTag(id, name) => Change::AddTag(*id, name@),
            Statement::DeleteTags(id) => Change::DeleteTags(*id),
            Statement::InsertFavorite(favorite) => Change::InsertFavorite(*favorite),
            Statement::DeleteFavorite(favorite) => Change::DeleteFavorite(*favorite),
            Statement::DeleteFavorites(id) => Change::DeleteFavorites(*id),
        }
    }
}

/// Where a run of statements ended: the tables it reached, and the fault
/// that stopped it, if one did.
pub struct Run {
    pub tables: Tables,
    pub fault: Option<StorageFault>,
}

impl Change {
    /// A row that a statement writes carries the slug that its id and title
    /// generate.
    pub open spec fn valid(self) -> bool {
        match self {
            Change::InsertArticle(row) => row.slug == slug_of(row.id, row.title),
            Change::UpdateArticle(row) => row.slug == slug_of(row.id, row.title),
            _ => true,
        }
    }

    /// One `AddTag` for each name, in order.
    pub open spec fn adds(article_id: u128, names: Seq<Seq<char>>) -> Seq<Change> {
        Seq::new(names.len(), |i: int| Change::AddTag(article_id, names[i]))
    }

    /// The plan that replaces the tags of an article: delete all, then add
    /// each name in turn.
    pub open spec fn tag_replacement(article_id: u128, names: Seq<Seq<char>>) -> Seq<Change> {
        seq![Change::DeleteTags(article_id)] + Self::adds(article_id, names)
    }

    /// The plan that deletes an article: its tags first, then its
    /// favorites, then the article itself.
    pub open spec fn cascade(article_id: u128) -> Seq<Change> {
        seq![
            Change::DeleteTags(article_id),
            Change::DeleteFavorites(article_id),
            Change::DeleteArticle(article_id),
        ]
    }
}

impl Tables {
    /// The tables after one statement, or the fault with which it fails.
    pub open spec fn apply(self, change: Change) -> Result<Tables, StorageFault> {
        match change {
            Change::InsertArticle(row) => if !change.valid() {
                Err(StorageFault::Other)
            } else if self.has_article(row.id) {
                Err(StorageFault::UniqueViolation)
            } else {
                Ok(self.with_article(row))
            },
            Change::UpdateArticle(row) => if !change.valid() {
                Err(StorageFault::Other)
            } else if self.has_article(row.id) {
                Ok(self.without_article(row.id).with_article(row))
            } else {
                Err(StorageFault::NoRow)
            },
            Change::DeleteArticle(id) => Ok(self.without_article(id)),
            Change::AddTag(id, name) => Ok(self.add_tag(id, name)),
            Change::DeleteTags(id) => Ok(self.delete_tags(id)),
            Change::InsertFavorite(favorite) => if self.favorites.contains(favorite) {
                Err(StorageFault::UniqueViolation)
            } else {
                Ok(self.with_favorite(favorite.user_id, favorite.article_id))
            },
            Change::DeleteFavorite(favorite) => Ok(
                self.without_favorite(favorite.user_id, favorite.article_id),
            ),
            Change::DeleteFavorites(id) => Ok(self.delete_favorites(id)),
        }
    }

    /// The statements one after the other, up to the first that fails: what
    /// the earlier ones changed stays changed.
    pub open spec fn run(self, changes: Seq<Change>) -> Run
        decreases changes.len(),
    {
        if changes.len() == 0 {
            Run { tables: self, fault: None }
        } else {
            match self.apply(changes.first()) {
                Ok(next) => next.run(changes.drop_first()),
                Err(fault) => Run { tables: self, fault: Some(fault) },
            }
        }
    }

    /// Adding names one by one to an article whose tags were replaced by
    /// `done` replaces them by `done` and those names.
    pub proof fn lemma_run_adds(self, article_id: u128, done: Seq<Seq<char>>, rest: Seq<Seq<char>>)
        ensures
            self.replace_tags(article_id, done).run(Change::adds(article_id, rest)) == (Run {
                tables: self.replace_tags(article_id, done + rest),
                fault: None,
            }),
        decreases rest.len(),
    {
        let adds = Change::adds(article_id, rest);
        if rest.len() == 0 {
            assert(done + rest =~= done);
        } else {
            let next = done.push(rest.first());
            self.lemma_replace_push(article_id, done, rest.first());
            self.lemma_run_adds(article_id, next, rest.drop_first());
            assert(adds.drop_first() =~= Change::adds(article_id, rest.drop_first()));
            assert(next + rest.drop_first() =~= done + rest);
        }
    }

    /// Running the tag replacement replaces the tags, and never fails.
    pub proof fn lemma_run_tag_replacement(self, article_id: u128, names: Seq<Seq<char>>)
        ensures
            self.run(Change::tag_replacement(article_id, names)) == (Run {
                tables: self.replace_tags(article_id, names),
                fault: None,
            }),
    {
        let plan = Change::tag_replacement(article_id, names);
        assert(plan.first() == Change::DeleteTags(article_id));
        assert(plan.drop_first() =~= Change::adds(article_id, names));
        self.lemma_replace_none(article_id);
        self.lemma_run_adds(article_id, Seq::empty(), names);
        assert(Seq::<Seq<char>>::empty() + names =~= names);
    }

    /// Running the cascade deletes tags, favorites and article, and never
    /// fails.
    pub proof fn lemma_run_cascade(self, article_id: u128)
        ensures
            self.run(Change::cascade(article_id)) == (Run {
                tables: self.delete_tags(article_id).delete_favorites(article_id).without_article(
                    article_id,
                ),
                fault: None,
            }),
    {
        let plan = Change::cascade(article_id);
        let second = plan.drop_first();
        let third = second.drop_first();
        assert(third.drop_first().len() == 0);
        reveal_with_fuel(Tables::run, 4);
    }

    /// A statement in front of a plan: the plan runs on what the statement
    /// left, unless the statement fails.
    pub proof fn lemma_run_after(self, change: Change, rest: Seq<Change>)
        ensures
            self.run(seq![change] + rest) == match self.apply(change) {
                Ok(next) => next.run(rest),
                Err(fault) => Run { tables: self, fault: Some(fault) },
            },
    {
        let plan = seq![change] + rest;
        assert(plan.first() == change);
        assert(plan.drop_first() =~= rest);
    }
}

/// Whether the row carries the slug that its id and title generate.
pub fn has_generated_slug(article: &Article) -> (generated: bool)
    ensures
        generated == Change::InsertArticle(article@).valid(),
{
    generate_slug(article.id, article.title.as_str()) == article.slug
}

/// The plan that replaces the tags of an article.
pub fn tag_replacement(article_id: u128, names: &Vec<String>) -> (plan: Vec<Statement>)
    ensures
        views(plan@) == Change::tag_replacement(article_id, names.deep_view()),
{
    let mut plan: Vec<Statement> = Vec::new();
    plan.push(Statement::DeleteTags(article_id));
    let mut i: usize = 0;
    while i < names.len()
        invariant
            i <= names.len(),
            plan@.len() == i + 1,
            plan@[0]@ == Change::DeleteTags(article_id),
            forall|j: int|
                0 <= j < i ==> (#[trigger] plan@[j + 1])@ == Change::AddTag(article_id, names@[j]@),
        decreases names.len() - i,
    {
        plan.push(Statement::AddTag(article_id, names[i].clone()));
        i += 1;
    }
    proof {
        let wanted = Change::tag_replacement(article_id, names.deep_view());
        assert forall|k: int| 0 <= k < wanted.len() implies views(plan@)[k] == wanted[k] by {
            if k > 0 {
                assert(plan@[(k - 1) + 1]@ == Change::AddTag(article_id, names@[k - 1]@));
            }
        }
        assert(views(plan@) =~= wanted);
    }
    plan
}

/// The plan that deletes an article with all that hangs on it.
pub fn cascade(article_id: u128) -> (plan: Vec<Statement>)
    ensures
        views(plan@) == Change::cascade(article_id),
{
    let mut plan: Vec<Statement> = Vec::new();
    plan.push(Statement::DeleteTags(article_id));
    plan.push(Statement::DeleteFavorites(article_id));
    plan.push(Statement::DeleteArticle(article_id));
    proof {
        assert(views(plan@) =~= Change::cascade(article_id));
    }
    plan
}

impl Store {
    /// Makes one change to the tables, or fails and changes nothing.
    pub fn execute(&mut self, statement: &Statement) -> (outcome: Result<(), StorageFault>)
        requires
            old(self).wf(),
        ensures
            final(self).wf(),
            match old(self)@.apply(statement@) {
                Ok(tables) => outcome is Ok && final(self)@ == tables,
                Err(fault) => outcome == Err::<(), StorageFault>(fault) && final(self)@ == old(
                    self,
                )@,
            },
    {
        match statement {
            Statement::InsertArticle(article) => {
                if !has_generated_slug(article) {
                    return Err(StorageFault::Other);
                }
                self.insert_article(article.duplicate())
            },
            Statement::UpdateArticle(article) => {
                if !has_generated_slug(article) {
                    return Err(StorageFault::Other);
                }
                if !self.has_article(article.id) {
                    return Err(StorageFault::NoRow);
                }
                self.remove_article(article.id);
                proof {
                    assert(!self@.has_article(article.id));
                }
                self.insert_article(article.duplicate())
            },
            Statement::DeleteArticle(id) => {
                self.remove_article(*id);
                Ok(())
            },
            Statement::AddTag(id, name) => {
                self.add_tag(*id, name.as_str());
                Ok(())
            },
            Statement::DeleteTags(id) => {
                self.delete_tags(*id);
                Ok(())
            },
            Statement::InsertFavorite(favorite) => self.insert_favorite(
                favorite.user_id,
                favorite.article_id,
            ),
            Statement::DeleteFavorite(favorite) => {
                self.delete_favorite(favorite.user_id, favorite.article_id);
                Ok(())
            },
            Statement::DeleteFavorites(id) => {
                self.delete_favorites(*id);
                Ok(())
            },
        }
    }

    /// Runs the statements in order and stops at the first that fails:
    /// what the earlier ones changed stays changed.
    pub fn run(&mut self, statements: &Vec<Statement>) -> (outcome: Result<(), StorageFault>)
        requires
            old(self).wf(),
        ensures
            final(self).wf(),
            final(self)@ == old(self)@.run(views(statements@)).tables,
            outcome == match old(self)@.run(views(statements@)).fault {
                Some(fault) => Err::<(), StorageFault>(fault),
                None => Ok(()),
            },
    {
        let ghost before = self@;
        let ghost plan = views(statements@);
        let mut i: usize = 0;
        proof {
            assert(plan.skip(0) =~= plan);
        }
        while i < statements.len()
            invariant
                self.wf(),
                i <= statements.len(),
                plan == views(statements@),
                before == old(self)@,
                before.run(plan) == self@.run(plan.skip(i as int)),
            decreases statements.len() - i,
        {
            proof {
                let rest = plan.skip(i as int);
                assert(rest.len() > 0);
                assert(rest.first() == statements@[i as int]@);
                assert(rest.drop_first() =~= plan.skip(i + 1));
                assert(self@.run(rest) == match self@.apply(rest.first()) {
                    Ok(next) => next.run(rest.drop_first()),
                    Err(fault) => Run { tables: self@, fault: Some(fault) },
                });
            }
            match self.execute(&statements[i]) {
                Ok(()) => {},
                Err(fault) => {
                    return Err(fault);
                },
            }
            i += 1;
        }
        Ok(())
    }
}

} // verus!
