//! Fetching one page of posts: the primary address, then the fallbacks in
//! order, then the links found on the school page, until one answers 2xx.

use vstd::prelude::*;
use crate::endpoints::{
    candidate_links, discovered_from, page_urls, primary_url, strictly_sorted, Site,
};
use crate::error::AppError;
use crate::html::{attr_of_matches, select_attr, selector_accepted};
use crate::parser::{listing_outcome, parse_posts};
use crate::post::{posts_view, Post, PostView};
use crate::text::{chars_of, concat, decimal, decimal_of, string_of};
use crate::transport::{status_of, succeeded, Reply};

verus! {

/// Where a page fetch stands.
#[derive(Debug, Clone, Copy, PartialEq, Eq, Structural)]
pub enum FetchStage {
    /// Trying the primary address and the fallbacks.
    Listed,
    /// Waiting for the school page, to look for more addresses.
    SchoolPage,
    /// Trying the addresses found on the school page.
    Discovered,
}

/// A page fetch in progress.
#[derive(Debug)]
pub struct PageFetch {
    /// The base address of the portal.
    pub base_url: String,
    /// The addresses of the current round, in the order they are tried.
    pub urls: Vec<String>,
    /// The index in `urls` of the address last requested.
    pub at: usize,
    pub stage: FetchStage,
    /// The status of the last answer that failed, if any answer came.
    pub last_status: Option<u16>,
}

/// What the host program is to do next.
#[derive(Debug, PartialEq, Eq)]
pub enum FetchAction {
    /// Request this address and hand back the reply.
    Get(String),
    /// Request the school page at this address and hand back the reply.
    GetSchoolPage(String),
    /// The fetch is over.
    Done(Result<Vec<Post>, AppError>),
}

/// The characters of each address.
pub open spec fn urls_view(v: Seq<String>) -> Seq<Seq<char>> {
    v.map_values(|s: String| s@)
}

/// The message of a fetch that ran out of addresses: status-based where some
/// answer came, connectivity-based where none did.
pub open spec fn exhausted_message(last: Option<u16>) -> Seq<char> {
    match last {
        Some(st) => "Failed to fetch posts. Status: "@ + decimal(st as nat)
            + ". This might indicate an authentication or permissions issue."@,
        None => "Failed to connect for fetching posts. Please check your internet connection and try again."@,
    }
}

/// The fetch failed with the message for `last`.
pub open spec fn is_exhausted(a: FetchAction, last: Option<u16>) -> bool {
    a matches FetchAction::Done(Err(AppError::Generic(m))) && m@ == exhausted_message(last)
}

/// `res` is what `outcome` says of a listing.
pub open spec fn parsed_as(res: Result<Vec<Post>, AppError>, outcome: Option<Seq<PostView>>) -> bool {
    &&& (res is Ok <==> outcome is Some)
    &&& (res matches Ok(ps) ==> outcome == Some(posts_view(ps@)))
    &&& (res matches Err(e) ==> e is Parse)
}

/// The last status seen after `reply`.
pub open spec fn seen_status(last: Option<u16>, reply: Reply) -> Option<u16> {
    match status_of(reply) {
        Some(st) => Some(st),
        None => last,
    }
}

/// The links of the school page `body` that are worth trying, found.
pub open spec fn found_links(s: PageFetch, t: PageFetch, body: Seq<char>) -> bool {
    &&& selector_accepted("a[href]"@)
    &&& strictly_sorted(urls_view(t.urls@))
    &&& forall|u: Seq<char>|
        urls_view(t.urls@).contains(u) <==> discovered_from(
            attr_of_matches(body, "a[href]"@, "href"@),
            s.base_url@,
            u,
        )
}

/// One step of a page fetch: from state `s`, on `reply` to the last request,
/// to state `t` with action `a`.
pub open spec fn fetch_step(s: PageFetch, reply: Reply, t: PageFetch, a: FetchAction) -> bool {
    match s.stage {
        FetchStage::SchoolPage => match reply {
            Reply::Answered { status, body, .. } => if succeeded(reply) && selector_accepted(
                "a[href]"@,
            ) && exists|u: Seq<char>|
                discovered_from(attr_of_matches(body@, "a[href]"@, "href"@), s.base_url@, u) {
                &&& t.stage == FetchStage::Discovered
                &&& t.base_url == s.base_url
                &&& t.last_status == s.last_status
                &&& t.at == 0
                &&& found_links(s, t, body@)
                &&& a matches FetchAction::Get(u) && u@ == urls_view(t.urls@)[0]
            } else {
                is_exhausted(a, s.last_status)
            },
            Reply::Failed { .. } => is_exhausted(a, s.last_status),
        },
        _ => match reply {
            Reply::Answered { body, .. } => if succeeded(reply) {
                a matches FetchAction::Done(res) && parsed_as(
                    res,
                    listing_outcome(urls_view(s.urls@)[s.at as int], body@, s.base_url@),
                )
            } else {
                next_address(s, reply, t, a)
            },
            Reply::Failed { .. } => next_address(s, reply, t, a),
        },
    }
}

/// After a failed request: the next address of the round, else the school
/// page once, else the end.
pub open spec fn next_address(s: PageFetch, reply: Reply, t: PageFetch, a: FetchAction) -> bool {
    let last = seen_status(s.last_status, reply);
    if s.at + 1 < s.urls.len() {
        &&& t.stage == s.stage
        &&& t.base_url == s.base_url
        &&& t.urls == s.urls
        &&& t.at == s.at + 1
        &&& t.last_status == last
        &&& a matches FetchAction::Get(u) && u@ == urls_view(s.urls@)[s.at + 1]
    } else if s.stage == FetchStage::Listed {
        &&& t.stage == FetchStage::SchoolPage
        &&& t.base_url == s.base_url
        &&& t.last_status == last
        &&& a matches FetchAction::GetSchoolPage(u) && u@ == s.base_url@
    } else {
        is_exhausted(a, last)
    }
}

impl PageFetch {
    /// The state is consistent: the last requested address is in the round.
    pub open spec fn wf(&self) -> bool {
        self.stage != FetchStage::SchoolPage ==> self.at < self.urls.len()
    }

    /// Begins fetching `page`: the primary address is requested first.
    pub fn start(site: &Site, page: u32) -> (r: (PageFetch, FetchAction))
        ensures
            r.0.wf(),
            r.0.stage == FetchStage::Listed,
            r.0.base_url@ == site.base_url@,
            urls_view(r.0.urls@) == page_urls(
                site.base_url@,
                site.school_id as nat,
                site.child_id as nat,
                page as nat,
            ),
            r.0.at == 0,
            r.0.last_status is None,
            r.1 matches FetchAction::Get(u) && u@ == primary_url(
                site.base_url@,
                site.school_id as nat,
                site.child_id as nat,
                page as nat,
            ),
    {
        let urls = site.page_urls(page);
        proof {
            let pv = page_urls(
                site.base_url@,
                site.school_id as nat,
                site.child_id as nat,
                page as nat,
            );
            assert(pv.len() == 8);
            assert(pv[0] == primary_url(
                site.base_url@,
                site.school_id as nat,
                site.child_id as nat,
                page as nat,
            ));
            assert(urls_view(urls@).len() == urls@.len());
            assert(urls_view(urls@)[0] == urls@[0]@);
        }
        let first = urls[0].clone();
        let s = PageFetch {
            base_url: site.base_url.clone(),
            urls,
            at: 0,
            stage: FetchStage::Listed,
            last_status: None,
        };
        (s, FetchAction::Get(first))
    }

    /// Takes the reply to the last request and says what to do next.
    pub fn on_reply(&mut self, reply: Reply) -> (a: FetchAction)
        requires
            old(self).wf(),
        ensures
            final(self).wf(),
            fetch_step(*old(self), reply, *final(self), a),
    {
        match self.stage {
            FetchStage::SchoolPage => {
                if reply.succeeded() {
                    match &reply {
                        Reply::Answered { body, .. } => {
                            match select_attr(body.as_str(), "a[href]", "href") {
                                Some(hrefs) => {
                                    let found = candidate_links(&hrefs, self.base_url.as_str());
                                    if found.len() > 0 {
                                        let first = found[0].clone();
                                        proof {
                                            assert(urls_view(found@).contains(urls_view(found@)[0]));
                                            assert(discovered_from(
                                                attr_of_matches(body@, "a[href]"@, "href"@),
                                                self.base_url@,
                                                urls_view(found@)[0],
                                            ));
                                        }
                                        self.urls = found;
                                        self.at = 0;
                                        self.stage = FetchStage::Discovered;
                                        return FetchAction::Get(first);
                                    }
                                    proof {
                                        assert forall|u: Seq<char>| !discovered_from(
                                            attr_of_matches(body@, "a[href]"@, "href"@),
                                            self.base_url@,
                                            u,
                                        ) by {
                                            assert(!urls_view(found@).contains(u));
                                        }
                                    }
                                },
                                None => {},
                            }
                        },
                        Reply::Failed { .. } => {},
                    }
                }
                FetchAction::Done(Err(exhausted_error(self.last_status)))
            },
            _ => {
                if reply.succeeded() {
                    match &reply {
                        Reply::Answered { body, .. } => {
                            let res = parse_posts(
                                self.urls[self.at].as_str(),
                                body.as_str(),
                                self.base_url.as_str(),
                            );
                            return FetchAction::Done(res);
                        },
                        Reply::Failed { .. } => {},
                    }
                }
                let last = match reply.status() {
                    Some(st) => Some(st),
                    None => self.last_status,
                };
                self.last_status = last;
                if self.at + 1 < self.urls.len() {
                    self.at = self.at + 1;
                    FetchAction::Get(self.urls[self.at].clone())
                } else if self.stage == FetchStage::Listed {
                    self.stage = FetchStage::SchoolPage;
                    FetchAction::GetSchoolPage(self.base_url.clone())
                } else {
                    FetchAction::Done(Err(exhausted_error(last)))
                }
            },
        }
    }
}

/// The error of a fetch that ran out of addresses.
fn exhausted_error(last: Option<u16>) -> (r: AppError)
    ensures
        r matches AppError::Generic(m) && m@ == exhausted_message(last),
{
    match last {
        Some(st) => {
            let head = concat(&chars_of("Failed to fetch posts. Status: "), &decimal_of(st as u64));
            let all = concat(
                &head,
                &chars_of(". This might indicate an authentication or permissions issue."),
            );
            AppError::Generic(string_of(&all))
        },
        None => AppError::Generic(
            String::from_str(
                "Failed to connect for fetching posts. Please check your internet connection and try again.",
            ),
        ),
    }
}

/// Once the primary address of a page answers 2xx, the fetch is over: no
/// fallback address is requested.
pub proof fn lemma_primary_success_ends_fetch(
    site: Site,
    page: u32,
    s0: PageFetch,
    a0: FetchAction,
    reply: Reply,
    s1: PageFetch,
    a1: FetchAction,
)
    requires
        s0.stage == FetchStage::Listed,
        s0.at == 0,
        urls_view(s0.urls@) == page_urls(
            site.base_url@,
            site.school_id as nat,
            site.child_id as nat,
            page as nat,
        ),
        a0 matches FetchAction::Get(u) && u@ == primary_url(
            site.base_url@,
            site.school_id as nat,
            site.child_id as nat,
            page as nat,
        ),
        fetch_step(s0, reply, s1, a1),
        succeeded(reply),
    ensures
        a1 is Done,
        a1 matches FetchAction::Done(res) && parsed_as(
            res,
            listing_outcome(
                primary_url(site.base_url@, site.school_id as nat, site.child_id as nat, page as nat),
                match reply {
                    Reply::Answered { body, .. } => body@,
                    Reply::Failed { .. } => Seq::empty(),
                },
                s0.base_url@,
            ),
        ),
{
}

} // verus!
