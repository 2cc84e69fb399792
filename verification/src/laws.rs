//! What holds of the store across operations, proved over the model.

use vstd::prelude::*;
use crate::error::Error;
use crate::model::Tables;
use crate::rows::{ArticleRow, Favorite, Patch, TagRow, UserRow};
use crate::statements::Change;

verus! {

/// Two stored articles never go by the same slug, even under the same
/// title.
pub proof fn law_slugs_are_unique(tables: Tables, a: ArticleRow, b: ArticleRow)
    requires
        tables.wf(),
        tables.articles.contains(a),
        tables.articles.contains(b),
        a != b,
    ensures
        a.slug != b.slug,
{
    if a.slug == b.slug {
        tables.lemma_slug_unique(a, b);
    }
}

/// After the tags of an article were replaced by `names`, the article has
/// exactly those names as tags, each once however often it was listed, and
/// the tags of every other article are what they were.
pub proof fn law_replace_then_select(
    tables: Tables,
    article_id: u128,
    names: Seq<Seq<char>>,
    other_id: u128,
)
    requires
        other_id != article_id,
    ensures
        tables.replace_tags(article_id, names).tag_names(article_id) == names.to_set(),
        tables.replace_tags(article_id, names).tag_names(other_id) == tables.tag_names(other_id),
{
    let after = tables.replace_tags(article_id, names);
    assert(after.tag_names(article_id) =~= names.to_set());
    assert(after.tag_names(other_id) =~= tables.tag_names(other_id));
}

/// Adding a tag a second time changes nothing: the article has the tag
/// once, and the table has grown by that one row at most.
pub proof fn law_add_tag_twice(tables: Tables, article_id: u128, name: Seq<char>)
    requires
        tables.tags.finite(),
    ensures
        tables.add_tag(article_id, name).add_tag(article_id, name) == tables.add_tag(
            article_id,
            name,
        ),
        tables.add_tag(article_id, name).tag_names(article_id) == tables.tag_names(
            article_id,
        ).insert(name),
        tables.add_tag(article_id, name).tags.len() == tables.tags.len() + (if tables.tags.contains(
            TagRow { article_id, tag_name: name },
        ) {
            0int
        } else {
            1int
        }),
{
    let once = tables.add_tag(article_id, name);
    assert(once.add_tag(article_id, name) =~= once);
    assert(once.tag_names(article_id) =~= tables.tag_names(article_id).insert(name));
}

/// Where a delete succeeds, the article is gone with all its tags and all
/// its favorites: no tag and no favorite names it, its favorites count is
/// zero, and nobody finds it by its slug any more.
pub proof fn law_delete_cascades(tables: Tables, slug: Seq<char>, viewer_id: u128)
    requires
        tables.wf(),
        tables.delete(slug, viewer_id).result is Ok,
    ensures
        ({
            let id = tables.article_by_slug(slug)->Some_0.id;
            let after = tables.delete(slug, viewer_id).tables;
            &&& after.tag_names(id) == Set::<Seq<char>>::empty()
            &&& forall|t: TagRow| after.tags.contains(t) ==> t.article_id != id
            &&& after.favorites_count(id) == 0
            &&& forall|f: Favorite| after.favorites.contains(f) ==> f.article_id != id
            &&& !after.has_article(id)
            &&& after.article_by_slug(slug) is None
            &&& forall|viewer: Option<u128>| #[trigger]
                after.get(slug, viewer) == Err::<crate::rows::Projection, Error>(Error::NotFound)
        }),
{
    let row = tables.article_by_slug(slug)->Some_0;
    let id = row.id;
    let after = tables.delete(slug, viewer_id).tables;
    assert(after.tag_names(id) =~= Set::<Seq<char>>::empty());
    assert(after.favorites.filter(|f: Favorite| f.article_id == id) =~= Set::<Favorite>::empty());
    assert forall|a: ArticleRow| #[trigger] after.articles.contains(a) implies a.slug != slug by {
        if a.slug == slug {
            tables.lemma_slug_unique(a, row);
        }
    }
}

/// An update by anyone but the author fails with `Forbidden` and changes
/// nothing.
pub proof fn law_only_the_author_updates(
    tables: Tables,
    slug: Seq<char>,
    viewer: UserRow,
    patch: Patch,
    now: i64,
)
    requires
        tables.article_by_slug(slug) matches Some(row) && row.author_id != viewer.id,
    ensures
        tables.update(slug, viewer, patch, now).result == Err::<crate::rows::Projection, Error>(
            Error::Forbidden,
        ),
        tables.update(slug, viewer, patch, now).tables == tables,
{
}

/// A delete by anyone but the author fails with `Forbidden` and changes
/// nothing.
pub proof fn law_only_the_author_deletes(tables: Tables, slug: Seq<char>, viewer_id: u128)
    requires
        tables.article_by_slug(slug) matches Some(row) && row.author_id != viewer_id,
    ensures
        tables.delete(slug, viewer_id).result == Err::<(), Error>(Error::Forbidden),
        tables.delete(slug, viewer_id).tables == tables,
{
}

/// Favorite, then unfavorite: the tables are what they were, and the
/// second response shows the article as not favorited, with the favorites
/// count that it had before the favorite.
pub proof fn law_favorite_then_unfavorite(tables: Tables, slug: Seq<char>, viewer_id: u128)
    requires
        tables.wf(),
        tables.favorite(slug, viewer_id).result is Ok,
    ensures
        ({
            let id = tables.article_by_slug(slug)->Some_0.id;
            let favored = tables.favorite(slug, viewer_id);
            let back = favored.tables.unfavorite(slug, viewer_id);
            &&& favored.result->Ok_0.favorited
            &&& favored.result->Ok_0.favorites_count == tables.favorites_count(id) + 1
            &&& back.tables == tables
            &&& back.result is Ok
            &&& !back.result->Ok_0.favorited
            &&& back.result->Ok_0.favorites_count == tables.favorites_count(id)
        }),
{
    let id = tables.article_by_slug(slug)->Some_0.id;
    let row = Favorite { user_id: viewer_id, article_id: id };
    let of_article = |f: Favorite| f.article_id == id;
    let favored = tables.favorite(slug, viewer_id);
    let back = favored.tables.unfavorite(slug, viewer_id);
    assert(favored.tables.favorites.filter(of_article) =~= tables.favorites.filter(
        of_article,
    ).insert(row));
    assert(back.tables.favorites =~= tables.favorites);
    assert(back.tables =~= tables);
}

/// A second favorite by the same viewer fails with `Conflict` and changes
/// nothing.
pub proof fn law_favorite_twice(tables: Tables, slug: Seq<char>, viewer_id: u128)
    requires
        tables.wf(),
        tables.favorite(slug, viewer_id).result is Ok,
    ensures
        ({
            let once = tables.favorite(slug, viewer_id).tables;
            &&& once.favorite(slug, viewer_id).result == Err::<crate::rows::Projection, Error>(
                Error::Conflict,
            )
            &&& once.favorite(slug, viewer_id).tables == once
        }),
{
}

/// An anonymous viewer has favorited nothing and follows nobody, and an
/// author is never shown as following themselves.
pub proof fn law_flags_of_strangers_and_authors(tables: Tables, slug: Seq<char>)
    requires
        tables.wf(),
        tables.lookup(slug) is Some,
    ensures
        ({
            let author_id = tables.lookup(slug)->Some_0.1.id;
            &&& tables.get(slug, None) matches Ok(seen) && !seen.favorited && !seen.author.following
            &&& tables.get(slug, Some(author_id)) matches Ok(seen) && !seen.author.following
        }),
{
}

/// The order of the cascade is tags, favorites, article: at every step a
/// tag or a favorite that names the article is there only while the article
/// is, so a delete that stops half-way leaves no row without its parent.
pub proof fn law_cascade_order(tables: Tables, article: ArticleRow)
    requires
        tables.wf(),
        tables.articles.contains(article),
    ensures
        ({
            let id = article.id;
            let first = tables.delete_tags(id);
            let second = first.delete_favorites(id);
            let third = second.without_article(id);
            &&& first.has_article(id)
            &&& second.has_article(id)
            &&& forall|t: TagRow| second.tags.contains(t) ==> t.article_id != id
            &&& !third.has_article(id)
            &&& forall|t: TagRow| third.tags.contains(t) ==> t.article_id != id
            &&& forall|f: Favorite| third.favorites.contains(f) ==> f.article_id != id
        }),
{
    let id = article.id;
    let first = tables.delete_tags(id);
    let second = first.delete_favorites(id);
    assert(first.articles.contains(article));
    assert(second.articles.contains(article));
}

/// A tag replacement that stopped after some of its adds can be run again
/// from the start: the outcome is that of one complete run.
pub proof fn law_replace_can_be_retried(
    tables: Tables,
    article_id: u128,
    names: Seq<Seq<char>>,
    done: int,
)
    requires
        0 <= done <= names.len(),
    ensures
        tables.replace_tags(article_id, names.take(done)).replace_tags(article_id, names)
            == tables.replace_tags(article_id, names),
        tables.delete_tags(article_id).replace_tags(article_id, names) == tables.replace_tags(
            article_id,
            names,
        ),
{
    assert(tables.replace_tags(article_id, names.take(done)).replace_tags(article_id, names)
        =~= tables.replace_tags(article_id, names));
    assert(tables.delete_tags(article_id).replace_tags(article_id, names)
        =~= tables.replace_tags(article_id, names));
}

/// A cascade that stopped after its first or its second step can be run
/// again from the start: the outcome is that of one complete run.
pub proof fn law_cascade_can_be_retried(tables: Tables, id: u128)
    ensures
        ({
            let first = tables.delete_tags(id);
            let second = first.delete_favorites(id);
            let third = second.without_article(id);
            &&& first.delete_tags(id).delete_favorites(id).without_article(id) == third
            &&& second.delete_tags(id).delete_favorites(id).without_article(id) == third
        }),
{
    let first = tables.delete_tags(id);
    let second = first.delete_favorites(id);
    let third = second.without_article(id);
    assert(first.delete_tags(id).delete_favorites(id).without_article(id) =~= third);
    assert(second.delete_tags(id).delete_favorites(id).without_article(id) =~= third);
}

/// A run stops at the first statement that fails: what the statements
/// before it changed stays changed, and none after it is run.
pub proof fn law_run_stops_at_the_first_fault(tables: Tables, done: Seq<Change>, rest: Seq<Change>)
    ensures
        tables.run(done + rest) == if tables.run(done).fault is None {
            tables.run(done).tables.run(rest)
        } else {
            tables.run(done)
        },
    decreases done.len(),
{
    if done.len() == 0 {
        assert(done + rest =~= rest);
    } else {
        assert((done + rest).first() == done.first());
        assert((done + rest).drop_first() =~= done.drop_first() + rest);
        match tables.apply(done.first()) {
            Ok(next) => law_run_stops_at_the_first_fault(next, done.drop_first(), rest),
            Err(_) => {},
        }
    }
}

/// Replacing the tags of an article keeps the tag table finite.
proof fn lemma_replace_is_finite(tables: Tables, article_id: u128, names: Seq<Seq<char>>)
    requires
        tables.tags.finite(),
    ensures
        tables.replace_tags(article_id, names).tags.finite(),
    decreases names.len(),
{
    if names.len() == 0 {
        assert(names =~= Seq::empty());
        tables.lemma_replace_none(article_id);
    } else {
        lemma_replace_is_finite(tables, article_id, names.drop_last());
        assert(names =~= names.drop_last().push(names.last()));
        tables.lemma_replace_push(article_id, names.drop_last(), names.last());
    }
}

/// Every statement on the tags and the favorites keeps the invariant of
/// the tables.
pub proof fn law_statements_keep_the_invariant(
    tables: Tables,
    article_id: u128,
    user_id: u128,
    name: Seq<char>,
    names: Seq<Seq<char>>,
)
    requires
        tables.wf(),
    ensures
        tables.add_tag(article_id, name).wf(),
        tables.delete_tags(article_id).wf(),
        tables.replace_tags(article_id, names).wf(),
        tables.delete_favorites(article_id).wf(),
        tables.with_favorite(user_id, article_id).wf(),
        tables.without_favorite(user_id, article_id).wf(),
{
    lemma_replace_is_finite(tables, article_id, names);
}

/// Every operation on articles keeps the invariant of the tables: ids and
/// slugs stay unique, and every slug stays the one that its article's id
/// and title generate.
pub proof fn law_operations_keep_the_invariant(
    tables: Tables,
    id: u128,
    author: UserRow,
    draft: crate::rows::Draft,
    slug: Seq<char>,
    viewer: UserRow,
    patch: Patch,
    now: i64,
)
    requires
        tables.wf(),
    ensures
        tables.create(id, author, draft, now).tables.wf(),
        tables.update(slug, viewer, patch, now).tables.wf(),
        tables.delete(slug, viewer.id).tables.wf(),
        tables.favorite(slug, viewer.id).tables.wf(),
        tables.unfavorite(slug, viewer.id).tables.wf(),
{
    let row = Tables::new_row(id, author.id, draft, now);
    lemma_replace_is_finite(tables.with_article(row), id, draft.tags);
    if tables.article_by_slug(slug) is Some {
        let old_row = tables.article_by_slug(slug)->Some_0;
        let changed = Tables::patched(old_row, patch, now);
        let rows = tables.without_article(old_row.id).with_article(changed);
        assert(rows.wf());
        if patch.tags is Some {
            lemma_replace_is_finite(rows, old_row.id, patch.tags->Some_0);
        }
    }
}

} // verus!
