//! Bookmarks: a video reference with the tags that a user gave it.

use crate::error::DomainError;
use crate::parts::url_parse;
use crate::youtube_url::{validate, YoutubeUrl};
use vstd::prelude::*;

verus! {

/// The characters of each string of `strings`, in order.
pub open spec fn strings_view(strings: Seq<String>) -> Seq<Seq<char>> {
    Seq::new(strings.len(), |i: int| strings[i]@)
}

/// A saved video reference together with its tags. The tags keep the order in
/// which they were added, and a tag may occur more than once.
#[derive(Clone, Debug)]
pub struct YtBookMark {
    /// The video that the bookmark refers to.
    pub url: YoutubeUrl,
    /// The tags, oldest first.
    pub tags: Vec<String>,
}

/// The mathematical value of a [`YtBookMark`].
pub struct YtBookMarkView {
    pub video_id: Seq<char>,
    pub tags: Seq<Seq<char>>,
}

impl View for YtBookMark {
    type V = YtBookMarkView;

    open spec fn view(&self) -> YtBookMarkView {
        YtBookMarkView { video_id: self.url@, tags: strings_view(self.tags@) }
    }
}

/// The bookmark `bookmark` with `tag` added behind its tags.
pub open spec fn with_tag(bookmark: YtBookMarkView, tag: Seq<char>) -> YtBookMarkView {
    YtBookMarkView { video_id: bookmark.video_id, tags: bookmark.tags.push(tag) }
}

/// The values of the bookmarks of `bookmarks`, in order.
pub open spec fn bookmarks_view(bookmarks: Seq<YtBookMark>) -> Seq<YtBookMarkView> {
    Seq::new(bookmarks.len(), |i: int| bookmarks[i]@)
}

/// Every bookmark of `bookmarks` with `tag` added behind its tags.
pub open spec fn all_with_tag(bookmarks: Seq<YtBookMarkView>, tag: Seq<char>) -> Seq<
    YtBookMarkView,
> {
    Seq::new(bookmarks.len(), |i: int| with_tag(bookmarks[i], tag))
}

/// The outcome of making a bookmark, with the bookmark replaced by its view.
pub open spec fn created_view(created: Result<YtBookMark, DomainError>) -> Result<
    YtBookMarkView,
    DomainError,
> {
    match created {
        Ok(bookmark) => Ok(bookmark@),
        Err(e) => Err(e),
    }
}

/// The bookmark that [`YtBookMark::new`] owes for a verdict on the URL and a list of tags.
pub open spec fn create(verdict: Result<Seq<char>, DomainError>, tags: Seq<Seq<char>>) -> Result<
    YtBookMarkView,
    DomainError,
> {
    match verdict {
        Ok(video_id) => Ok(YtBookMarkView { video_id, tags }),
        Err(e) => Err(e),
    }
}

impl YtBookMark {
    /// Validates `url_str` and, if it is accepted, makes a bookmark of it with
    /// `tags` exactly as they were given. A refusal is passed on as it is.
    pub fn new(url_str: String, tags: Vec<String>) -> (created: Result<YtBookMark, DomainError>)
        ensures
            created_view(created) == create(validate(url_parse(url_str@)), strings_view(tags@)),
    {
        match YoutubeUrl::try_from(url_str) {
            Ok(url) => Ok(YtBookMark { url, tags }),
            Err(e) => Err(e),
        }
    }

    /// Adds `tag` behind the tags of this bookmark, whether or not it is there already.
    pub fn push_tag(&mut self, tag: String)
        ensures
            final(self)@ == with_tag(old(self)@, tag@),
    {
        self.tags.push(tag);
        assert(strings_view(self.tags@) =~= strings_view(old(self).tags@).push(tag@));
    }
}

/// Adds a copy of `tag` behind the tags of every bookmark of `bookmarks`. The
/// bookmarks stay as many as they were and in their order, and nothing else of
/// them changes.
pub fn add_tag(bookmarks: &mut [YtBookMark], tag: String)
    ensures
        bookmarks_view(final(bookmarks)@) == all_with_tag(bookmarks_view(old(bookmarks)@), tag@),
        final(bookmarks)@.len() == old(bookmarks)@.len(),
        forall|i: int|
            #![trigger old(bookmarks)@[i]]
            #![trigger final(bookmarks)@[i]]
            0 <= i < old(bookmarks)@.len() ==> {
                let before = old(bookmarks)@[i]@;
                let after = final(bookmarks)@[i]@;
                &&& after.video_id == before.video_id
                &&& after.tags == before.tags.push(tag@)
                &&& after.tags.len() == before.tags.len() + 1
                &&& after.tags.contains(tag@)
            },
{
    let n = bookmarks.len();
    let mut i: usize = 0;
    while i < n
        invariant
            i <= n,
            n == old(bookmarks)@.len(),
            bookmarks@.len() == n,
            forall|j: int| 0 <= j < i ==> bookmarks@[j]@ == with_tag(old(bookmarks)@[j]@, tag@),
            forall|j: int| i <= j < n ==> bookmarks@[j] == old(bookmarks)@[j],
        decreases n - i,
    {
        bookmarks[i].push_tag(tag.clone());
        i = i + 1;
    }
    assert(bookmarks_view(bookmarks@) =~= all_with_tag(bookmarks_view(old(bookmarks)@), tag@));
    assert forall|i: int| 0 <= i < n implies (#[trigger] old(bookmarks)@[i])@.tags.push(
        tag@,
    ).contains(tag@) by {
        let tags = old(bookmarks)@[i]@.tags.push(tag@);
        assert(tags[tags.len() - 1] == tag@);
    }
}

/// Tags are not deduplicated: after adding `tag` to every bookmark twice, each
/// bookmark ends in two copies of `tag`, and holds `tag` two times more often
/// than before.
pub proof fn lemma_add_tag_twice(bookmarks: Seq<YtBookMarkView>, tag: Seq<char>)
    ensures
        all_with_tag(all_with_tag(bookmarks, tag), tag).len() == bookmarks.len(),
        forall|i: int|
            0 <= i < bookmarks.len() ==> {
                let before = #[trigger] bookmarks[i];
                let after = all_with_tag(all_with_tag(bookmarks, tag), tag)[i];
                &&& after.video_id == before.video_id
                &&& after.tags == before.tags + seq![tag, tag]
                &&& after.tags.to_multiset().count(tag) == before.tags.to_multiset().count(tag) + 2
            },
{
    assert forall|i: int| 0 <= i < bookmarks.len() implies {
        let before = #[trigger] bookmarks[i];
        let after = all_with_tag(all_with_tag(bookmarks, tag), tag)[i];
        &&& after.video_id == before.video_id
        &&& after.tags == before.tags + seq![tag, tag]
        &&& after.tags.to_multiset().count(tag) == before.tags.to_multiset().count(tag) + 2
    } by {
        let before = bookmarks[i];
        let once = before.tags.push(tag);
        let after = all_with_tag(all_with_tag(bookmarks, tag), tag)[i];
        assert(after.tags == once.push(tag));
        assert(after.tags =~= before.tags + seq![tag, tag]);
        vstd::seq_lib::to_multiset_build(before.tags, tag);
        vstd::seq_lib::to_multiset_build(once, tag);
    }
}

} // verus!
