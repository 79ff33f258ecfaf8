//! The decisions that site extractors make while they gather posts: how tags are joined
//! into a query, when a query is refused, which posts a blacklist removes, and when a
//! paged search stops.
use crate::post::Post;
use vstd::prelude::*;

verus! {

/// Why a search could not produce a list of posts.
#[derive(Clone, Copy, Debug, PartialEq, Eq, Structural)]
pub enum ExtractorError {
    /// The site accepts at most `max` tags in one search.
    TooManyTags { current: usize, max: usize },
    /// The search matches no post.
    ZeroPosts,
    /// The site's answer did not hold the expected count.
    InvalidServerResponse,
}

/// How many tags Danbooru accepts in one search.
pub const DANBOORU_MAX_TAGS: usize = 2;

/// The last page a paged search asks for.
pub const MAX_PAGES: usize = 100;

/// A Moebooru page with fewer posts than this is the last one.
pub const MOEBOORU_FULL_PAGE: usize = 320;

/// The tags joined by `+`, as search URLs take them.
pub open spec fn plus_joined(tags: Seq<Seq<char>>) -> Seq<char>
    decreases tags.len(),
{
    if tags.len() == 0 {
        Seq::empty()
    } else if tags.len() == 1 {
        tags[0]
    } else {
        plus_joined(tags.drop_last()) + seq!['+'] + tags.last()
    }
}

/// The view of each string of a list.
pub open spec fn texts(v: Seq<String>) -> Seq<Seq<char>> {
    v.map_values(|s: String| s@)
}

/// Joins search tags with `+`.
pub fn join_tags(tags: &Vec<String>) -> (r: String)
    ensures
        r@ == plus_joined(texts(tags@)),
{
    let mut out = String::new();
    let mut i: usize = 0;
    while i < tags.len()
        invariant
            i <= tags@.len(),
            out@ == plus_joined(texts(tags@.subrange(0, i as int))),
        decreases tags@.len() - i,
    {
        proof {
            reveal_strlit("+");
        }
        let ghost prev = texts(tags@.subrange(0, i as int));
        let ghost next = texts(tags@.subrange(0, i + 1));
        assert(next.drop_last() =~= prev);
        assert(next.last() == tags@[i as int]@);
        let ghost before = out@;
        if i > 0 {
            out.append("+");
            assert(out@ == before + seq!['+']);
        }
        out.append(tags[i].as_str());
        proof {
            if i == 0 {
                assert(out@ =~= next[0]);
            } else {
                assert(out@ =~= before + seq!['+'] + next.last());
            }
        }
        i = i + 1;
    }
    assert(tags@.subrange(0, tags@.len() as int) =~= tags@);
    out
}

/// Refuses a search with more tags than the site accepts.
pub fn validate_tag_count(current: usize, max: usize) -> (r: Result<(), ExtractorError>)
    ensures
        current <= max ==> r is Ok,
        current > max ==> r == Err::<(), ExtractorError>(
            ExtractorError::TooManyTags { current, max },
        ),
{
    if current > max {
        Err(ExtractorError::TooManyTags { current, max })
    } else {
        Ok(())
    }
}

/// Reads the post count a site reported for a search: a search with no post is refused,
/// and an answer without a count is invalid.
pub fn check_post_count(count: Option<u64>) -> (r: Result<u64, ExtractorError>)
    ensures
        count is None ==> r == Err::<u64, ExtractorError>(ExtractorError::InvalidServerResponse),
        count == Some(0u64) ==> r == Err::<u64, ExtractorError>(ExtractorError::ZeroPosts),
        count is Some && count->0 > 0 ==> r == Ok::<u64, ExtractorError>(count->0),
{
    match count {
        None => Err(ExtractorError::InvalidServerResponse),
        Some(0) => Err(ExtractorError::ZeroPosts),
        Some(n) => Ok(n),
    }
}

/// Whether a post has a tag that the blacklist names.
pub open spec fn has_blacklisted_tag(post: Post, blacklist: Seq<Seq<char>>) -> bool {
    exists|i: int| 0 <= i < post.tags@.len() && blacklist.contains(#[trigger] post.tags@[i].tag@)
}

/// Whether a post has a tag that the blacklist names.
pub fn is_blacklisted(post: &Post, blacklist: &Vec<String>) -> (r: bool)
    ensures
        r == has_blacklisted_tag(*post, texts(blacklist@)),
{
    let ghost bl = texts(blacklist@);
    let mut i: usize = 0;
    while i < post.tags.len()
        invariant
            i <= post.tags@.len(),
            bl == texts(blacklist@),
            forall|k: int| 0 <= k < i ==> !bl.contains(#[trigger] post.tags@[k].tag@),
        decreases post.tags@.len() - i,
    {
        let mut j: usize = 0;
        while j < blacklist.len()
            invariant
                i < post.tags@.len(),
                j <= blacklist@.len(),
                bl == texts(blacklist@),
                forall|m: int| 0 <= m < j ==> bl[m] != post.tags@[i as int].tag@,
            decreases blacklist@.len() - j,
        {
            if post.tags[i].tag == blacklist[j] {
                assert(bl[j as int] == post.tags@[i as int].tag@);
                assert(bl.contains(post.tags@[i as int].tag@));
                return true;
            }
            j = j + 1;
        }
        assert(!bl.contains(post.tags@[i as int].tag@));
        i = i + 1;
    }
    false
}

/// Removes every post that has a blacklisted tag, keeping the others in order. Returns how
/// many were removed.
pub fn blacklist_filter(list: &mut Vec<Post>, blacklist: &Vec<String>) -> (removed: u64)
    ensures
        final(list)@ == old(list)@.filter(|p: Post| !has_blacklisted_tag(p, texts(blacklist@))),
        removed == old(list)@.len() - final(list)@.len(),
{
    let ghost all = list@;
    let ghost keep = |p: Post| !has_blacklisted_tag(p, texts(blacklist@));
    let n = list.len();
    let mut i: usize = 0;
    let mut removed: u64 = 0;
    while i < list.len()
        invariant
            all.len() == n,
            keep == (|p: Post| !has_blacklisted_tag(p, texts(blacklist@))),
            i <= list@.len(),
            i + removed <= all.len(),
            i == all.subrange(0, i + removed).filter(keep).len(),
            list@ == all.subrange(0, i + removed).filter(keep) + all.subrange(
                i + removed,
                all.len() as int,
            ),
        decreases list@.len() - i,
    {
        proof {
            reveal(Seq::filter);
        }
        let ghost k: int = i + removed;
        let ghost done = all.subrange(0, k).filter(keep);
        assert(all.subrange(0, k + 1).drop_last() =~= all.subrange(0, k));
        assert(all.subrange(0, k + 1).last() == all[k]);
        assert(list@[i as int] == all[k]);
        if is_blacklisted(&list[i], blacklist) {
            list.remove(i);
            removed = removed + 1;
            assert(all.subrange(0, k + 1).filter(keep) == done);
            assert(list@ =~= done + all.subrange(k + 1, all.len() as int));
        } else {
            assert(keep(all[k]));
            assert(all.subrange(0, k + 1).filter(keep) == done.push(all[k]));
            assert(list@ =~= done.push(all[k]) + all.subrange(k + 1, all.len() as int));
            i = i + 1;
        }
    }
    assert(all.subrange(i + removed, all.len() as int).len() == 0);
    assert(list@ =~= all.subrange(0, all.len() as int).filter(keep));
    assert(all.subrange(0, all.len() as int) =~= all);
    removed
}

/// The page a search asks for on its `page`-th round, when it starts after `start_page`.
pub fn page_position(page: usize, start_page: Option<usize>) -> (r: usize)
    requires
        start_page is Some ==> page + start_page->0 <= usize::MAX,
    ensures
        r == page + match start_page {
            Some(n) => n,
            None => 0,
        },
{
    match start_page {
        Some(n) => page + n,
        None => page,
    }
}

/// Whether a Danbooru search goes on after its `page`-th round, which returned `found`
/// posts before filtering, with `gathered` posts kept so far: it stops on an empty page,
/// once the limit is reached, and after the last page.
pub fn danbooru_continues(page: usize, found: usize, gathered: usize, limit: Option<usize>) -> (r:
    bool)
    ensures
        r == (found > 0 && !(limit is Some && gathered >= limit->0) && page != MAX_PAGES),
{
    if found == 0 {
        return false;
    }
    if let Some(num) = limit {
        if gathered >= num {
            return false;
        }
    }
    page != MAX_PAGES
}

/// Whether a Moebooru search goes on after its `page`-th round, which returned `found`
/// posts: it stops on a page that is not full, and after the last page.
pub fn moebooru_continues(page: usize, found: usize) -> (r: bool)
    ensures
        r == (found >= MOEBOORU_FULL_PAGE && page != MAX_PAGES),
{
    if found == 0 {
        return false;
    }
    !(found < MOEBOORU_FULL_PAGE || page == MAX_PAGES)
}

} // verus!
