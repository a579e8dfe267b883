//! The crawl loop: pages are fetched from page 1 upward, their posts
//! gathered, until a page comes back empty.

use vstd::prelude::*;
use crate::error::AppError;
use crate::post::{posts_view, Post, PostView};

verus! {

/// Where a crawl stands: the page last requested and the posts gathered so far.
pub struct Crawl {
    pub page: u32,
    pub posts: Vec<Post>,
}

/// A crawl as plain values.
pub struct CrawlView {
    pub page: nat,
    pub posts: Seq<PostView>,
}

impl View for Crawl {
    type V = CrawlView;

    open spec fn view(&self) -> CrawlView {
        CrawlView { page: self.page as nat, posts: posts_view(self.posts@) }
    }
}

/// What the host program is to do next.
#[derive(Debug, PartialEq, Eq)]
pub enum CrawlAction {
    /// Fetch this page and hand back its posts, or the error.
    FetchPage(u32),
    /// The crawl is over.
    Done(Result<Vec<Post>, AppError>),
}

/// What one fetched page does to a crawl.
pub enum CrawlMove {
    /// Go on with the next page.
    Next(CrawlView),
    /// End with these posts.
    Finish(Seq<PostView>),
    /// End with the page's error.
    Fail,
    /// End because the page counter cannot go higher.
    Overflow,
}

/// The first page requested.
pub open spec fn first_page() -> nat {
    1
}

/// The crawl before any page came back.
pub open spec fn crawl_initial() -> CrawlView {
    CrawlView { page: first_page(), posts: Seq::empty() }
}

/// What a page with posts `got` (or an error, `None`) does to crawl `c`.
pub open spec fn crawl_move(c: CrawlView, got: Option<Seq<PostView>>) -> CrawlMove {
    match got {
        None => CrawlMove::Fail,
        Some(ps) => if ps.len() == 0 {
            CrawlMove::Finish(c.posts)
        } else if c.page >= u32::MAX {
            CrawlMove::Overflow
        } else {
            CrawlMove::Next(CrawlView { page: c.page + 1, posts: c.posts + ps })
        },
    }
}

/// The posts of a page result, as plain values.
pub open spec fn got_view(r: Result<Vec<Post>, AppError>) -> Option<Seq<PostView>> {
    match r {
        Ok(ps) => Some(posts_view(ps@)),
        Err(_) => None,
    }
}

impl Crawl {
    /// Begins a crawl: page 1 is fetched first.
    pub fn start() -> (r: (Crawl, CrawlAction))
        ensures
            r.0@ == crawl_initial(),
            r.1 == CrawlAction::FetchPage(1),
    {
        let c = Crawl { page: 1, posts: Vec::new() };
        proof {
            assert(posts_view(c.posts@) =~= Seq::<PostView>::empty());
        }
        (c, CrawlAction::FetchPage(1))
    }

    /// Takes the result of the last page fetch and says what to do next.
    pub fn on_page(&mut self, result: Result<Vec<Post>, AppError>) -> (a: CrawlAction)
        ensures
            match crawl_move(old(self)@, got_view(result)) {
                CrawlMove::Next(v) => final(self)@ == v && a == CrawlAction::FetchPage(
                    v.page as u32,
                ),
                CrawlMove::Finish(ps) => a matches CrawlAction::Done(Ok(r)) && posts_view(r@)
                    == ps,
                CrawlMove::Fail => a matches CrawlAction::Done(Err(e)) && result == Err::<
                    Vec<Post>,
                    AppError,
                >(e),
                CrawlMove::Overflow => a matches CrawlAction::Done(Err(AppError::Generic(_))),
            },
    {
        match result {
            Err(e) => CrawlAction::Done(Err(e)),
            Ok(mut ps) => {
                if ps.len() == 0 {
                    let mut all: Vec<Post> = Vec::new();
                    std::mem::swap(&mut all, &mut self.posts);
                    return CrawlAction::Done(Ok(all));
                }
                if self.page == u32::MAX {
                    return CrawlAction::Done(
                        Err(AppError::Generic(String::from_str("Too many pages to crawl"))),
                    );
                }
                let ghost before = posts_view(self.posts@);
                let ghost got = posts_view(ps@);
                self.posts.append(&mut ps);
                proof {
                    assert(posts_view(self.posts@) =~= before + got);
                }
                self.page = self.page + 1;
                CrawlAction::FetchPage(self.page)
            },
        }
    }
}

/// Where a crawl from `c` ends when the pages come back as `pages`, in order:
/// the posts it returns, or nothing where it fails or the pages run out first.
pub open spec fn crawl_run(c: CrawlView, pages: Seq<Seq<PostView>>) -> Option<Seq<PostView>>
    decreases pages.len(),
{
    if pages.len() == 0 {
        None
    } else {
        match crawl_move(c, Some(pages[0])) {
            CrawlMove::Next(d) => crawl_run(d, pages.drop_first()),
            CrawlMove::Finish(ps) => Some(ps),
            _ => None,
        }
    }
}

proof fn lemma_crawl_run_from(c: CrawlView, pages: Seq<Seq<PostView>>)
    requires
        pages.len() > 0,
        pages.last().len() == 0,
        forall|i: int| 0 <= i < pages.len() - 1 ==> (#[trigger] pages[i]).len() > 0,
        c.page + pages.len() <= u32::MAX + 1,
    ensures
        crawl_run(c, pages) == Some(c.posts + pages.flatten()),
    decreases pages.len(),
{
    if pages.len() == 1 {
        pages.lemma_flatten_one_element();
        assert(pages[0] == pages.last());
        assert(c.posts + pages.flatten() =~= c.posts);
    } else {
        assert(pages[0].len() > 0);
        let d = CrawlView { page: c.page + 1, posts: c.posts + pages[0] };
        let rest = pages.drop_first();
        assert(rest.last() == pages.last());
        assert forall|i: int| 0 <= i < rest.len() - 1 implies (#[trigger] rest[i]).len() > 0 by {
            assert(rest[i] == pages[i + 1]);
        }
        lemma_crawl_run_from(d, rest);
        assert(pages.flatten() == pages.first() + rest.flatten());
        assert(c.posts + pages[0] + rest.flatten() =~= c.posts + pages.flatten());
    }
}

/// For a sequence of pages that ends with the first empty one, the crawl
/// ends and returns the posts of all pages before it, concatenated in page
/// order.
pub proof fn lemma_crawl_concatenates_pages(pages: Seq<Seq<PostView>>)
    requires
        pages.len() > 0,
        pages.last().len() == 0,
        forall|i: int| 0 <= i < pages.len() - 1 ==> (#[trigger] pages[i]).len() > 0,
        pages.len() <= u32::MAX,
    ensures
        crawl_run(crawl_initial(), pages) == Some(pages.flatten()),
{
    lemma_crawl_run_from(crawl_initial(), pages);
    assert(crawl_initial().posts + pages.flatten() =~= pages.flatten());
}

} // verus!
