//! What depends on who is looking: favorites and followers.

use vstd::prelude::*;
use crate::store::Store;

verus! {

impl Store {
    /// Both flags for one viewer: whether they have favorited the article,
    /// and whether they follow its author.
    pub fn get_favorited_and_following(
        &self,
        article_id: u128,
        author_id: u128,
        user_id: u128,
    ) -> (flags: (bool, bool))
        requires
            self.wf(),
        ensures
            flags.0 == self@.favorited(article_id, user_id),
            flags.1 == self@.following(author_id, user_id),
    {
        (self.get_favorited(article_id, user_id), self.get_following(author_id, user_id))
    }

    /// Both flags for a viewer who may be anonymous: without a viewer both
    /// are `false`, and no table is read.
    pub fn annotate(&self, article_id: u128, author_id: u128, viewer: Option<u128>) -> (flags: (
        bool,
        bool,
    ))
        requires
            self.wf(),
        ensures
            flags.0 == (viewer matches Some(id) && self@.favorited(article_id, id)),
            flags.1 == (viewer matches Some(id) && self@.following(author_id, id)),
    {
        match viewer {
            Some(user_id) => self.get_favorited_and_following(article_id, author_id, user_id),
            None => (false, false),
        }
    }
}

} // verus!
