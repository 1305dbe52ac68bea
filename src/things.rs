//! Posts, listing pages, and the feed that hands posts out one by one.
//!
//! A [`PostFeed`] keeps the cursor of the listing and a buffer of posts that
//! are still to come. The buffer is a stack: a page is pushed in reverse, so
//! popping from its end yields the posts in the order the server sent them.
//! When the buffer is empty the feed asks the caller to fetch the next page
//! ([`FeedStep::Fetch`]) and takes the decoded page, or the failure, back
//! through [`PostFeed::receive`].
use vstd::prelude::*;

use crate::error::{Error, ErrorView};

verus! {

/// The pagination part of a listing.
#[derive(Debug, Clone)]
pub struct Pagination {
    pub after: String,
}

/// A listing as the server sends it.
#[derive(Debug, Clone)]
pub struct RawListing<T> {
    pub data: RawListingData<T>,
}

/// The body of a listing: its cursor and its children.
#[derive(Debug, Clone)]
pub struct RawListingData<T> {
    pub pagination: Pagination,
    pub children: Vec<T>,
}

/// A thing of some kind, with its data.
#[derive(Debug)]
pub struct RawKind<T> {
    pub data: T,
    pub kind: String,
}

/// The fields of a post as the server sends them.
#[derive(Debug, Clone)]
pub struct RawPostData {
    pub title: String,
    pub ups: i32,
    pub downs: i32,
    pub url: String,
    pub author: String,
    pub selftext: String,
    pub id: String,
}

/// A comment as the server sends it.
#[derive(Debug)]
pub struct RawComment {}

/// A post.
#[derive(Debug, Clone)]
pub struct Post {
    pub title: String,
    /// Upvotes.
    pub ups: i32,
    /// Downvotes.
    pub downs: i32,
    /// The URL of the post: an external website for a link, else the comment section.
    pub url: String,
    /// The author.
    pub author: String,
    /// The text of the post.
    pub selftext: String,
    /// The unique base 36 ID of the post.
    pub id: String,
    /// The kind, `t3` for posts; with the ID it makes the post's full name.
    pub kind: String,
}

/// A comment.
#[derive(Debug)]
pub struct Comment {
    pub author: String,
}

/// Information about the authenticated user.
#[derive(Debug)]
pub struct Me {
    pub name: String,
    pub total_karma: i32,
    pub link_karma: i32,
    pub comment_karma: i32,
    pub verified: bool,
}

/// The post a raw record describes: its fields, and the kind it was sent with.
pub open spec fn post_of(raw: RawKind<RawPostData>) -> Post {
    Post {
        title: raw.data.title,
        ups: raw.data.ups,
        downs: raw.data.downs,
        url: raw.data.url,
        author: raw.data.author,
        selftext: raw.data.selftext,
        id: raw.data.id,
        kind: raw.kind,
    }
}

impl From<RawKind<RawPostData>> for Post {
    fn from(raw: RawKind<RawPostData>) -> (r: Post) {
        Post {
            title: raw.data.title,
            ups: raw.data.ups,
            downs: raw.data.downs,
            url: raw.data.url,
            author: raw.data.author,
            selftext: raw.data.selftext,
            id: raw.data.id,
            kind: raw.kind,
        }
    }
}

impl vstd::std_specs::convert::FromSpecImpl<RawKind<RawPostData>> for Post {
    open spec fn obeys_from_spec() -> bool {
        true
    }

    open spec fn from_spec(raw: RawKind<RawPostData>) -> Post {
        post_of(raw)
    }
}

/// The posts of a page, in the order the server sent them.
pub open spec fn page_posts(page: RawListing<RawKind<RawPostData>>) -> Seq<Post> {
    page.data.children@.map_values(|c: RawKind<RawPostData>| post_of(c))
}

/// The buffer after a page was pushed onto it: the page reversed, on top.
pub open spec fn pushed(buffer: Seq<Post>, page: Seq<Post>) -> Seq<Post> {
    buffer + page.reverse()
}

/// The posts a feed yields, starting from `buffer`, when posts keep being
/// asked for and the fetched pages hold `pages`, in that order: buffered
/// posts are popped first, and a page is fetched only once the buffer is empty.
pub open spec fn feed_outputs(buffer: Seq<Post>, pages: Seq<Seq<Post>>) -> Seq<Post>
    decreases pages.len(), buffer.len(),
{
    if buffer.len() > 0 {
        seq![buffer.last()] + feed_outputs(buffer.drop_last(), pages)
    } else if pages.len() == 0 {
        Seq::empty()
    } else {
        let b = pushed(buffer, pages[0]);
        if b.len() == 0 {
            feed_outputs(b, pages.drop_first())
        } else {
            seq![b.last()] + feed_outputs(b.drop_last(), pages.drop_first())
        }
    }
}

proof fn lemma_reverse_last<A>(s: Seq<A>)
    requires
        s.len() > 0,
    ensures
        s.reverse() == seq![s.last()] + s.drop_last().reverse(),
{
    assert(s.reverse() =~= seq![s.last()] + s.drop_last().reverse());
}

proof fn lemma_reverse_reverse<A>(s: Seq<A>)
    ensures
        s.reverse().reverse() == s,
{
    assert(s.reverse().reverse() =~= s);
}

/// A feed holding `buffer` yields the buffered posts, the last one first,
/// and then every post of every fetched page exactly once, page after page,
/// each page in the order the server sent it.
pub proof fn lemma_feed_outputs(buffer: Seq<Post>, pages: Seq<Seq<Post>>)
    ensures
        feed_outputs(buffer, pages) == buffer.reverse() + pages.flatten(),
    decreases pages.len(), buffer.len(),
{
    if buffer.len() > 0 {
        lemma_feed_outputs(buffer.drop_last(), pages);
        lemma_reverse_last(buffer);
        assert(feed_outputs(buffer, pages) =~= buffer.reverse() + pages.flatten());
    } else if pages.len() == 0 {
        assert(feed_outputs(buffer, pages) =~= buffer.reverse() + pages.flatten());
    } else {
        let b = pushed(buffer, pages[0]);
        assert(b =~= pages[0].reverse());
        lemma_reverse_reverse(pages[0]);
        lemma_feed_outputs(b.drop_last(), pages.drop_first());
        lemma_feed_outputs(b, pages.drop_first());
        if b.len() > 0 {
            lemma_reverse_last(b);
        }
        assert(feed_outputs(buffer, pages) =~= buffer.reverse() + pages.flatten());
    }
}

/// A fresh feed yields every post of every fetched page exactly once, in
/// the order of the pages and, within a page, in the order the server sent.
pub proof fn lemma_fresh_feed_yields_pages_in_order(pages: Seq<Seq<Post>>)
    ensures
        feed_outputs(Seq::empty(), pages) == pages.flatten(),
{
    lemma_feed_outputs(Seq::empty(), pages);
    assert(Seq::<Post>::empty().reverse() + pages.flatten() =~= pages.flatten());
}

/// A request for the next page of a listing.
#[derive(Debug, Clone)]
pub struct PageRequest {
    pub url: String,
    pub limit: i32,
    pub after: String,
}

/// What the feed has for a caller asking for the next post.
#[derive(Debug)]
pub enum FeedStep {
    /// The next post.
    Ready(Post),
    /// The buffer is empty: fetch this page and hand it to [`PostFeed::receive`].
    Fetch(PageRequest),
}

/// A set of posts meant to be gone through one by one. It fetches more pages
/// for as long as posts are asked for: a caller bounds how many it takes.
#[derive(Debug)]
pub struct PostFeed {
    /// How many posts to request per page; the server allows at most 100.
    /// More pages are fetched when more posts are asked for.
    pub limit: i32,
    url: String,
    cached_posts: Vec<Post>,
    after: String,
}

impl PostFeed {
    /// The page size requested.
    pub closed spec fn page_limit(&self) -> i32 {
        self.limit
    }

    /// The listing URL the feed pages through.
    pub closed spec fn url_view(&self) -> Seq<char> {
        self.url@
    }

    /// The posts still buffered, the next one last.
    pub closed spec fn buffer(&self) -> Seq<Post> {
        self.cached_posts@
    }

    /// The cursor of the next page: empty for the first one.
    pub closed spec fn cursor(&self) -> Seq<char> {
        self.after@
    }

    /// A feed over `url` that has fetched nothing yet.
    pub fn new(url: String, limit: i32) -> (r: PostFeed)
        ensures
            r.page_limit() == limit,
            r.url_view() == url@,
            r.buffer() == Seq::<Post>::empty(),
            r.cursor() == Seq::<char>::empty(),
    {
        PostFeed { limit, url, cached_posts: Vec::new(), after: String::new() }
    }

    /// The cursor of the next page to fetch.
    pub fn after(&self) -> (r: &str)
        ensures
            r@ == self.cursor(),
    {
        self.after.as_str()
    }

    /// How many posts are buffered.
    pub fn buffered(&self) -> (r: usize)
        ensures
            r == self.buffer().len(),
    {
        self.cached_posts.len()
    }

    /// The next post if one is buffered, else the page to fetch, which is the
    /// page at the cursor and leaves the feed as it was.
    pub fn next(&mut self) -> (r: FeedStep)
        ensures
            final(self).page_limit() == old(self).page_limit(),
            final(self).url_view() == old(self).url_view(),
            final(self).cursor() == old(self).cursor(),
            old(self).buffer().len() > 0 ==> r == FeedStep::Ready(old(self).buffer().last())
                && final(self).buffer() == old(self).buffer().drop_last(),
            old(self).buffer().len() == 0 ==> final(self).buffer() == old(self).buffer() && (
            r matches FeedStep::Fetch(q) && q.url@ == old(self).url_view() && q.limit == old(
                self,
            ).page_limit() && q.after@ == old(self).cursor()),
    {
        match self.cached_posts.pop() {
            Some(post) => FeedStep::Ready(post),
            None => FeedStep::Fetch(
                PageRequest { url: self.url.clone(), limit: self.limit, after: self.after.clone() },
            ),
        }
    }

    /// Takes in the fetched page, or the failure to fetch or decode it.
    ///
    /// A failure is handed back and changes nothing: the next call fetches
    /// the same page again. A page moves the cursor to the page's own, is
    /// pushed onto the buffer, and the next post is popped off it.
    pub fn receive(&mut self, page: Result<RawListing<RawKind<RawPostData>>, Error>) -> (r:
        Option<Result<Post, Error>>)
        ensures
            final(self).page_limit() == old(self).page_limit(),
            final(self).url_view() == old(self).url_view(),
            match page {
                Err(e) => {
                    &&& r matches Some(Err(x)) && x@ == e@
                    &&& final(self).buffer() == old(self).buffer()
                    &&& final(self).cursor() == old(self).cursor()
                },
                Ok(l) => {
                    let b = pushed(old(self).buffer(), page_posts(l));
                    &&& final(self).cursor() == l.data.pagination.after@
                    &&& b.len() == 0 ==> r is None && final(self).buffer() == b
                    &&& b.len() > 0 ==> r == Some(Ok::<Post, Error>(b.last()))
                        && final(self).buffer() == b.drop_last()
                },
            },
    {
        match page {
            Err(e) => Some(Err(e)),
            Ok(listing) => {
                let RawListing { data: RawListingData { pagination, children } } = listing;
                let ghost all = children@;
                let ghost start = self.cached_posts@;
                let ghost limit = self.limit;
                let ghost url = self.url@;
                let ghost cursor = pagination.after@;
                let mut children = children;
                self.after = pagination.after;
                while children.len() > 0
                    invariant
                        self.limit == limit,
                        self.url@ == url,
                        self.after@ == cursor,
                        children@.len() <= all.len(),
                        children@ == all.subrange(0, children@.len() as int),
                        self.cached_posts@ == start + all.subrange(
                            children@.len() as int,
                            all.len() as int,
                        ).map_values(|c: RawKind<RawPostData>| post_of(c)).reverse(),
                    decreases children.len(),
                {
                    let ghost n = children@.len();
                    let raw = children.pop().unwrap();
                    proof {
                        assert(raw == all[n - 1]);
                    }
                    let post = Post::from(raw);
                    self.cached_posts.push(post);
                    proof {
                        let f = |c: RawKind<RawPostData>| post_of(c);
                        assert(children@ =~= all.subrange(0, children@.len() as int));
                        let tail = all.subrange(n as int, all.len() as int);
                        let tail1 = all.subrange(n - 1, all.len() as int);
                        assert(tail1 =~= seq![all[n - 1]] + tail);
                        let before = tail.map_values(f);
                        let after = tail1.map_values(f);
                        assert(post == post_of(all[n - 1]));
                        assert(after =~= seq![post_of(all[n - 1])] + before);
                        assert(after.reverse() =~= before.reverse().push(post_of(all[n - 1])));
                    }
                }
                proof {
                    assert(all.subrange(0, all.len() as int) =~= all);
                }
                match self.cached_posts.pop() {
                    Some(post) => Some(Ok(post)),
                    None => None,
                }
            },
        }
    }
}

/// A handle on a subreddit (or the front page), from which feeds are made.
#[derive(Debug, Clone)]
pub struct Subreddit {
    pub url: String,
}

/// The listing URL of a sort mode.
pub open spec fn sorted_url(base: Seq<char>, sort: Seq<char>) -> Seq<char> {
    base + "/"@ + sort
}

impl Subreddit {
    pub fn create(url: &str) -> (r: Subreddit)
        ensures
            r.url@ == url@,
    {
        Subreddit { url: String::from_str(url) }
    }

    /// A fresh feed over the listing with this sort: 100 posts a page,
    /// starting at the first page.
    fn posts_sorted(&self, sort: &str) -> (r: PostFeed)
        ensures
            r.page_limit() == 100,
            r.url_view() == sorted_url(self.url@, sort@),
            r.buffer() == Seq::<Post>::empty(),
            r.cursor() == Seq::<char>::empty(),
    {
        let url = self.url.clone().concat("/").concat(sort);
        PostFeed::new(url, 100)
    }

    pub fn hot(&self) -> (r: PostFeed)
        ensures
            r.page_limit() == 100,
            r.url_view() == sorted_url(self.url@, "hot"@),
            r.buffer() == Seq::<Post>::empty(),
            r.cursor() == Seq::<char>::empty(),
    {
        self.posts_sorted("hot")
    }

    pub fn new(&self) -> (r: PostFeed)
        ensures
            r.page_limit() == 100,
            r.url_view() == sorted_url(self.url@, "new"@),
            r.buffer() == Seq::<Post>::empty(),
            r.cursor() == Seq::<char>::empty(),
    {
        self.posts_sorted("new")
    }

    pub fn random(&self) -> (r: PostFeed)
        ensures
            r.page_limit() == 100,
            r.url_view() == sorted_url(self.url@, "random"@),
            r.buffer() == Seq::<Post>::empty(),
            r.cursor() == Seq::<char>::empty(),
    {
        self.posts_sorted("random")
    }

    pub fn rising(&self) -> (r: PostFeed)
        ensures
            r.page_limit() == 100,
            r.url_view() == sorted_url(self.url@, "rising"@),
            r.buffer() == Seq::<Post>::empty(),
            r.cursor() == Seq::<char>::empty(),
    {
        self.posts_sorted("rising")
    }

    pub fn top(&self) -> (r: PostFeed)
        ensures
            r.page_limit() == 100,
            r.url_view() == sorted_url(self.url@, "top"@),
            r.buffer() == Seq::<Post>::empty(),
            r.cursor() == Seq::<char>::empty(),
    {
        self.posts_sorted("top")
    }
}

} // verus!
