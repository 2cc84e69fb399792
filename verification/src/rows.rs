//! The rows of the five tables, what callers hand in, and what they get back.
//!
//! Each executable type has a view made of mathematical values; the
//! contracts of the store speak of the views only.

use vstd::prelude::*;
use crate::error::Error;

verus! {

/// The text of an optional string.
pub open spec fn opt_text(o: Option<String>) -> Option<Seq<char>> {
    match o {
        Some(s) => Some(s@),
        None => None,
    }
}

/// Copies an optional string.
pub fn copy_opt(o: &Option<String>) -> (copy: Option<String>)
    ensures
        copy == *o,
{
    match o {
        Some(s) => Some(s.clone()),
        None => None,
    }
}

/// A user, as the accounts subsystem stores it.
#[derive(Debug, Clone, PartialEq, Eq)]
pub struct User {
    pub id: u128,
    pub username: String,
    pub bio: Option<String>,
    pub image: Option<String>,
}

/// The view of a [`User`].
pub struct UserRow {
    pub id: u128,
    pub username: Seq<char>,
    pub bio: Option<Seq<char>>,
    pub image: Option<Seq<char>>,
}

impl View for User {
    type V = UserRow;

    open spec fn view(&self) -> UserRow {
        UserRow {
            id: self.id,
            username: self.username@,
            bio: opt_text(self.bio),
            image: opt_text(self.image),
        }
    }
}

impl User {
    /// Copies the row.
    pub fn duplicate(&self) -> (copy: User)
        ensures
            copy == *self,
    {
        User {
            id: self.id,
            username: self.username.clone(),
            bio: copy_opt(&self.bio),
            image: copy_opt(&self.image),
        }
    }
}

/// A stored article.
#[derive(Debug, Clone, PartialEq, Eq)]
pub struct Article {
    pub id: u128,
    pub slug: String,
    pub title: String,
    pub description: String,
    pub body: String,
    pub author_id: u128,
    pub created_at: i64,
    pub updated_at: i64,
}

/// The view of an [`Article`].
pub struct ArticleRow {
    pub id: u128,
    pub slug: Seq<char>,
    pub title: Seq<char>,
    pub description: Seq<char>,
    pub body: Seq<char>,
    pub author_id: u128,
    pub created_at: i64,
    pub updated_at: i64,
}

impl View for Article {
    type V = ArticleRow;

    open spec fn view(&self) -> ArticleRow {
        ArticleRow {
            id: self.id,
            slug: self.slug@,
            title: self.title@,
            description: self.description@,
            body: self.body@,
            author_id: self.author_id,
            created_at: self.created_at,
            updated_at: self.updated_at,
        }
    }
}

impl Article {
    /// Copies the row.
    pub fn duplicate(&self) -> (copy: Article)
        ensures
            copy == *self,
    {
        Article {
            id: self.id,
            slug: self.slug.clone(),
            title: self.title.clone(),
            description: self.description.clone(),
            body: self.body.clone(),
            author_id: self.author_id,
            created_at: self.created_at,
            updated_at: self.updated_at,
        }
    }
}

/// One tag on one article.
#[derive(Debug, Clone, PartialEq, Eq)]
pub struct ArticleTag {
    pub article_id: u128,
    pub tag_name: String,
}

/// The view of an [`ArticleTag`].
pub struct TagRow {
    pub article_id: u128,
    pub tag_name: Seq<char>,
}

impl View for ArticleTag {
    type V = TagRow;

    open spec fn view(&self) -> TagRow {
        TagRow { article_id: self.article_id, tag_name: self.tag_name@ }
    }
}

/// The fact that a user favorited an article.
#[derive(Debug, Clone, Copy, PartialEq, Eq, Structural)]
pub struct Favorite {
    pub user_id: u128,
    pub article_id: u128,
}

/// The fact that `follower_id` follows `user_id`.
#[derive(Debug, Clone, Copy, PartialEq, Eq, Structural)]
pub struct Follow {
    pub follower_id: u128,
    pub user_id: u128,
}

/// What an author hands in to create an article.
#[derive(Debug, Clone, PartialEq, Eq)]
pub struct NewArticle {
    pub title: String,
    pub description: String,
    pub body: String,
    pub tag_list: Vec<String>,
}

/// The view of a [`NewArticle`].
pub struct Draft {
    pub title: Seq<char>,
    pub description: Seq<char>,
    pub body: Seq<char>,
    pub tags: Seq<Seq<char>>,
}

impl View for NewArticle {
    type V = Draft;

    open spec fn view(&self) -> Draft {
        Draft {
            title: self.title@,
            description: self.description@,
            body: self.body@,
            tags: self.tag_list.deep_view(),
        }
    }
}

/// A partial update: a field that is `None` is left as it is.
#[derive(Debug, Clone, PartialEq, Eq)]
pub struct ArticleUpdate {
    pub title: Option<String>,
    pub description: Option<String>,
    pub body: Option<String>,
    pub tag_list: Option<Vec<String>>,
}

/// The view of an [`ArticleUpdate`].
pub struct Patch {
    pub title: Option<Seq<char>>,
    pub description: Option<Seq<char>>,
    pub body: Option<Seq<char>>,
    pub tags: Option<Seq<Seq<char>>>,
}

impl View for ArticleUpdate {
    type V = Patch;

    open spec fn view(&self) -> Patch {
        Patch {
            title: opt_text(self.title),
            description: opt_text(self.description),
            body: opt_text(self.body),
            tags: match self.tag_list {
                Some(tags) => Some(tags.deep_view()),
                None => None,
            },
        }
    }
}

/// The author of an article as a viewer sees them.
#[derive(Debug, Clone, PartialEq, Eq)]
pub struct ProfileResponse {
    pub username: String,
    pub bio: Option<String>,
    pub image: Option<String>,
    pub following: bool,
}

/// The view of a [`ProfileResponse`].
pub struct Profile {
    pub username: Seq<char>,
    pub bio: Option<Seq<char>>,
    pub image: Option<Seq<char>>,
    pub following: bool,
}

impl View for ProfileResponse {
    type V = Profile;

    open spec fn view(&self) -> Profile {
        Profile {
            username: self.username@,
            bio: opt_text(self.bio),
            image: opt_text(self.image),
            following: self.following,
        }
    }
}

/// An article as a viewer sees it: the stored fields, its tags, and what
/// depends on who is looking.
#[derive(Debug, Clone, PartialEq, Eq)]
pub struct ArticleResponse {
    pub slug: String,
    pub title: String,
    pub description: String,
    pub body: String,
    pub tag_list: Vec<String>,
    pub created_at: i64,
    pub updated_at: i64,
    pub favorited: bool,
    pub favorites_count: usize,
    pub author: ProfileResponse,
}

/// The view of an [`ArticleResponse`]. The tags are a set: the order in
/// which a response lists them carries no meaning.
pub struct Projection {
    pub slug: Seq<char>,
    pub title: Seq<char>,
    pub description: Seq<char>,
    pub body: Seq<char>,
    pub tags: Set<Seq<char>>,
    pub created_at: i64,
    pub updated_at: i64,
    pub favorited: bool,
    pub favorites_count: nat,
    pub author: Profile,
}

impl View for ArticleResponse {
    type V = Projection;

    open spec fn view(&self) -> Projection {
        Projection {
            slug: self.slug@,
            title: self.title@,
            description: self.description@,
            body: self.body@,
            tags: self.tag_list.deep_view().to_set(),
            created_at: self.created_at,
            updated_at: self.updated_at,
            favorited: self.favorited,
            favorites_count: self.favorites_count as nat,
            author: self.author@,
        }
    }
}

impl Projection {
    /// The projection made of an article's row, its author's row, its tags,
    /// and what was found out for the viewer.
    pub open spec fn assemble(
        article: ArticleRow,
        author: UserRow,
        tags: Set<Seq<char>>,
        favorited: bool,
        favorites_count: nat,
        following: bool,
    ) -> Projection {
        Projection {
            slug: article.slug,
            title: article.title,
            description: article.description,
            body: article.body,
            tags,
            created_at: article.created_at,
            updated_at: article.updated_at,
            favorited,
            favorites_count,
            author: Profile {
                username: author.username,
                bio: author.bio,
                image: author.image,
                following,
            },
        }
    }
}

impl ArticleResponse {
    /// The response lists no tag twice.
    pub open spec fn wf(&self) -> bool {
        self.tag_list.deep_view().no_duplicates()
    }

    /// Puts a response together: the article's own fields, the author's
    /// profile, and the tags, flags and count as given.
    pub fn assemble(
        article: &Article,
        author: &User,
        tag_list: Vec<String>,
        favorited: bool,
        favorites_count: usize,
        following: bool,
    ) -> (response: ArticleResponse)
        ensures
            response@ == Projection::assemble(
                article@,
                author@,
                tag_list.deep_view().to_set(),
                favorited,
                favorites_count as nat,
                following,
            ),
            response.tag_list == tag_list,
    {
        ArticleResponse {
            slug: article.slug.clone(),
            title: article.title.clone(),
            description: article.description.clone(),
            body: article.body.clone(),
            tag_list,
            created_at: article.created_at,
            updated_at: article.updated_at,
            favorited,
            favorites_count,
            author: ProfileResponse {
                username: author.username.clone(),
                bio: copy_opt(&author.bio),
                image: copy_opt(&author.image),
                following,
            },
        }
    }
}

/// What a fallible operation returned, with the response taken by its view.
pub open spec fn result_view(result: Result<ArticleResponse, Error>) -> Result<Projection, Error> {
    match result {
        Ok(response) => Ok(response@),
        Err(error) => Err(error),
    }
}

} // verus!
