//! The tag set of an article as a whole.

use vstd::prelude::*;
use crate::rows::{ArticleTag, TagRow};
use crate::store::Store;

verus! {

impl Store {
    /// Replaces the tags of an article: all it had are deleted, then each
    /// name is added in turn, a repeated name once. Afterwards the article
    /// has exactly the given names. The answer holds one row for each name
    /// handed in.
    pub fn replace_tags(&mut self, article_id: u128, tags: &Vec<String>) -> (rows: Vec<ArticleTag>)
        requires
            old(self).wf(),
        ensures
            final(self).wf(),
            final(self)@ == old(self)@.replace_tags(article_id, tags.deep_view()),
            rows@.len() == tags@.len(),
            forall|i: int|
                0 <= i < rows@.len() ==> (#[trigger] rows@[i])@ == (TagRow {
                    article_id,
                    tag_name: tags@[i]@,
                }),
    {
        let ghost before = self@;
        let ghost names = tags.deep_view();
        self.delete_tags(article_id);
        proof {
            before.lemma_replace_none(article_id);
            assert(names.take(0) =~= Seq::empty());
        }
        let mut rows: Vec<ArticleTag> = Vec::new();
        let mut i: usize = 0;
        while i < tags.len()
            invariant
                self.wf(),
                i <= tags.len(),
                names == tags.deep_view(),
                self@ == before.replace_tags(article_id, names.take(i as int)),
                rows@.len() == i,
                forall|j: int|
                    0 <= j < i ==> (#[trigger] rows@[j])@ == (TagRow {
                        article_id,
                        tag_name: tags@[j]@,
                    }),
            decreases tags.len() - i,
        {
            let tag = self.add_tag(article_id, tags[i].as_str());
            rows.push(tag);
            proof {
                assert(names.take(i + 1) =~= names.take(i as int).push(tags@[i as int]@));
                before.lemma_replace_push(article_id, names.take(i as int), tags@[i as int]@);
            }
            i += 1;
        }
        proof {
            assert(names.take(names.len() as int) =~= names);
        }
        rows
    }
}

} // verus!
