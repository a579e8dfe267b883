//! Endpoint resolution: where the portal is asked for posts, in which order,
//! and which links of the school page are worth trying.

use vstd::prelude::*;
use crate::text::{
    before_first, begins_with, chars_of, concat, contains, decimal, decimal_of, has, prefix_before,
    lex_less, lex_lt, lemma_lex_total, lemma_lex_transitive, starts_with, string_of,
};

verus! {

/// The host part of a base address: everything before its first `/schools`.
/// Logins and relative links are resolved against it.
pub open spec fn root_domain(base: Seq<char>) -> Seq<char> {
    before_first(base, "/schools"@)
}

/// The host part of a base address.
pub fn root_of(base: &str) -> (r: Vec<char>)
    ensures
        r@ == root_domain(base@),
{
    prefix_before(&chars_of(base), &chars_of("/schools"))
}

/// The base address names a loopback test host.
pub open spec fn is_loopback(base: Seq<char>) -> bool {
    starts_with(base, "http://127.0.0.1"@) || starts_with(base, "http://localhost"@)
}

/// Whether the base address names a loopback test host.
pub fn loopback_host(base: &str) -> (r: bool)
    ensures
        r == is_loopback(base@),
{
    let b = chars_of(base);
    begins_with(&b, &chars_of("http://127.0.0.1")) || begins_with(&b, &chars_of("http://localhost"))
}


/// Where the portal is: its school-scoped base address and the identifiers
/// of the school and the child whose posts are fetched.
pub struct Site {
    pub base_url: String,
    pub school_id: u32,
    pub child_id: u32,
}

/// The production host of the portal.
pub open spec fn portal_host() -> Seq<char> {
    "https://www.transparentclassroom.com"@
}

/// The listing path for a page: page 0 is the most recent page without a
/// page parameter.
pub open spec fn listing_path(page: nat) -> Seq<char> {
    if page == 0 {
        "/observations"@
    } else {
        "/observations?page="@ + decimal(page)
    }
}

/// The address first asked for a page of posts: the listing under the base
/// on a loopback host, else the child's JSON feed on the production host.
pub open spec fn primary_url(base: Seq<char>, school: nat, child: nat, page: nat) -> Seq<char> {
    if is_loopback(base) {
        base + listing_path(page)
    } else if page <= 1 {
        portal_host() + "/s/"@ + decimal(school) + "/children/"@ + decimal(child)
            + "/posts.json?locale=en"@
    } else {
        portal_host() + "/s/"@ + decimal(school) + "/children/"@ + decimal(child)
            + "/posts.json?locale=en"@ + "&page="@ + decimal(page)
    }
}

/// The addresses tried, in order, when the primary address fails.
pub open spec fn fallback_urls(base: Seq<char>, child: nat, page: nat) -> Seq<Seq<char>> {
    seq![
        root_domain(base) + listing_path(page),
        base + "/children/"@ + decimal(child) + "/observations"@,
        base + "/api/v1/children/"@ + decimal(child) + "/events"@,
        base + "/api/v1/children/"@ + decimal(child) + "/photos"@,
        base + "/api/v1/events"@,
        base + "/dashboard"@,
        base,
    ]
}

/// The addresses asked for a page, in order: the primary one, then the fallbacks.
pub open spec fn page_urls(base: Seq<char>, school: nat, child: nat, page: nat) -> Seq<Seq<char>> {
    seq![primary_url(base, school, child, page)] + fallback_urls(base, child, page)
}

/// `a` followed by the characters of `b`.
fn glue(a: &Vec<char>, b: &str) -> (r: Vec<char>)
    ensures
        r@ == a@ + b@,
{
    concat(a, &chars_of(b))
}

/// `a` followed by `b`.
fn glue_chars(a: &Vec<char>, b: &Vec<char>) -> (r: Vec<char>)
    ensures
        r@ == a@ + b@,
{
    concat(a, b)
}

fn listing_path_of(page: u32) -> (r: Vec<char>)
    ensures
        r@ == listing_path(page as nat),
{
    if page == 0 {
        chars_of("/observations")
    } else {
        glue_chars(&chars_of("/observations?page="), &decimal_of(page as u64))
    }
}

impl Site {
    /// The addresses asked for `page`, in order: the primary one, then the
    /// fallbacks.
    pub fn page_urls(&self, page: u32) -> (r: Vec<String>)
        ensures
            r@.map_values(|s: String| s@) == page_urls(
                self.base_url@,
                self.school_id as nat,
                self.child_id as nat,
                page as nat,
            ),
    {
        let base = chars_of(self.base_url.as_str());
        let school = decimal_of(self.school_id as u64);
        let child = decimal_of(self.child_id as u64);
        let primary = if loopback_host(self.base_url.as_str()) {
            glue_chars(&base, &listing_path_of(page))
        } else {
            let head = glue(
                &glue_chars(&glue(&chars_of("https://www.transparentclassroom.com"), "/s/"), &school),
                "/children/",
            );
            let feed = glue(&glue_chars(&head, &child), "/posts.json?locale=en");
            if page <= 1 {
                feed
            } else {
                glue_chars(&glue(&feed, "&page="), &decimal_of(page as u64))
            }
        };
        let first = glue_chars(&root_of(self.base_url.as_str()), &listing_path_of(page));
        let second = glue(&glue_chars(&glue(&base, "/children/"), &child), "/observations");
        let third = glue(&glue_chars(&glue(&base, "/api/v1/children/"), &child), "/events");
        let fourth = glue(&glue_chars(&glue(&base, "/api/v1/children/"), &child), "/photos");
        let fifth = glue(&base, "/api/v1/events");
        let sixth = glue(&base, "/dashboard");
        assert(primary@ == primary_url(
            self.base_url@,
            self.school_id as nat,
            self.child_id as nat,
            page as nat,
        ));
        let r = vec![
            string_of(&primary),
            string_of(&first),
            string_of(&second),
            string_of(&third),
            string_of(&fourth),
            string_of(&fifth),
            string_of(&sixth),
            self.base_url.clone(),
        ];
        assert(r@.map_values(|s: String| s@) =~= page_urls(
            self.base_url@,
            self.school_id as nat,
            self.child_id as nat,
            page as nat,
        ));
        r
    }
}


/// A link that looks like it leads to posts.
pub open spec fn mentions_listing(h: Seq<char>) -> bool {
    ||| contains(h, "observation"@)
    ||| contains(h, "event"@)
    ||| contains(h, "photo"@)
    ||| contains(h, "post"@)
    ||| contains(h, "feed"@)
    ||| contains(h, "timeline"@)
}

/// A link made absolute: kept where it starts with `http`, put after the
/// host where it starts with `/`, else put after the base and a `/`.
pub open spec fn normalized_link(h: Seq<char>, base: Seq<char>) -> Seq<char> {
    if starts_with(h, "http"@) {
        h
    } else if starts_with(h, "/"@) {
        root_domain(base) + h
    } else {
        base + "/"@ + h
    }
}

/// `u` is the absolute form of one of the links in `hrefs` that looks like
/// it leads to posts.
pub open spec fn discovered_from(hrefs: Seq<Option<Seq<char>>>, base: Seq<char>, u: Seq<char>) -> bool {
    exists|i: int|
        0 <= i < hrefs.len() && (#[trigger] hrefs[i]) is Some && mentions_listing(hrefs[i]->0) && u
            == normalized_link(hrefs[i]->0, base)
}

/// Each element sorts strictly before every later one.
pub open spec fn strictly_sorted(s: Seq<Seq<char>>) -> bool {
    forall|i: int, j: int| 0 <= i < j < s.len() ==> lex_lt(#[trigger] s[i], #[trigger] s[j])
}

/// The characters of each row.
pub open spec fn char_rows(v: Seq<Vec<char>>) -> Seq<Seq<char>> {
    v.map_values(|c: Vec<char>| c@)
}

/// Adds `x` to a strictly sorted list, keeping it strictly sorted and without
/// repeats.
fn insert_sorted(v: &mut Vec<Vec<char>>, x: Vec<char>)
    requires
        strictly_sorted(char_rows(old(v)@)),
    ensures
        strictly_sorted(char_rows(final(v)@)),
        forall|u: Seq<char>|
            char_rows(final(v)@).contains(u) <==> (char_rows(old(v)@).contains(u) || u == x@),
{
    let ghost s = char_rows(v@);
    let mut p: usize = 0;
    while p < v.len() && lex_less(&v[p], &x)
        invariant
            p <= v.len(),
            s == char_rows(v@),
            forall|i: int| 0 <= i < p ==> lex_lt(#[trigger] s[i], x@),
        decreases v.len() - p,
    {
        p += 1;
    }
    if p < v.len() && !lex_less(&x, &v[p]) {
        proof {
            lemma_lex_total(s[p as int], x@);
            assert(s[p as int] == x@);
            assert forall|u: Seq<char>| s.contains(u) <==> (s.contains(u) || u == x@) by {
                if u == x@ {
                    assert(s[p as int] == u);
                }
            }
        }
        return;
    }
    let ghost xv = x@;
    v.insert(p, x);
    proof {
        let t = char_rows(v@);
        assert(t =~= s.insert(p as int, xv));
        if p < s.len() {
            lemma_lex_total(s[p as int], xv);
        }
        assert forall|i: int, j: int| 0 <= i < j < t.len() implies lex_lt(
            #[trigger] t[i],
            #[trigger] t[j],
        ) by {
            if j < p {
                assert(t[i] == s[i] && t[j] == s[j]);
            } else if j == p {
                assert(t[i] == s[i] && t[j] == xv);
            } else if i < p {
                assert(t[i] == s[i] && t[j] == s[j - 1]);
                if j - 1 > i {
                }
            } else if i == p {
                assert(t[j] == s[j - 1]);
                if j - 1 > p {
                    lemma_lex_transitive(xv, s[p as int], s[j - 1]);
                }
            } else {
                assert(t[i] == s[i - 1] && t[j] == s[j - 1]);
            }
        }
        assert forall|u: Seq<char>| t.contains(u) <==> (s.contains(u) || u == xv) by {
            if t.contains(u) {
                let k = choose|k: int| 0 <= k < t.len() && t[k] == u;
                if k < p {
                    assert(s[k] == u);
                } else if k > p {
                    assert(s[k - 1] == u);
                }
            }
            if s.contains(u) {
                let k = choose|k: int| 0 <= k < s.len() && s[k] == u;
                if k < p {
                    assert(t[k] == u);
                } else {
                    assert(t[k + 1] == u);
                }
            }
            if u == xv {
                assert(t[p as int] == u);
            }
        }
    }
}

/// The absolute form of a link.
fn normalize_link(h: &Vec<char>, base: &str) -> (r: Vec<char>)
    ensures
        r@ == normalized_link(h@, base@),
{
    if begins_with(h, &chars_of("http")) {
        h.clone()
    } else if begins_with(h, &chars_of("/")) {
        concat(&root_of(base), h)
    } else {
        concat(&glue(&chars_of(base), "/"), h)
    }
}

/// Whether a link looks like it leads to posts.
fn looks_like_listing(h: &Vec<char>) -> (r: bool)
    ensures
        r == mentions_listing(h@),
{
    has(h, &chars_of("observation")) || has(h, &chars_of("event")) || has(h, &chars_of("photo"))
        || has(h, &chars_of("post")) || has(h, &chars_of("feed")) || has(h, &chars_of("timeline"))
}

/// The links of a school page worth trying for posts: those that mention
/// observations, events, photos, posts, a feed or a timeline, made absolute,
/// sorted, each once.
pub fn candidate_links(hrefs: &Vec<Option<String>>, base: &str) -> (r: Vec<String>)
    ensures
        strictly_sorted(r@.map_values(|s: String| s@)),
        forall|u: Seq<char>|
            r@.map_values(|s: String| s@).contains(u) <==> discovered_from(
                crate::html::opts_view(hrefs@),
                base@,
                u,
            ),
{
    let ghost hv = crate::html::opts_view(hrefs@);
    let mut sorted: Vec<Vec<char>> = Vec::new();
    let mut i: usize = 0;
    while i < hrefs.len()
        invariant
            i <= hrefs.len(),
            hv == crate::html::opts_view(hrefs@),
            strictly_sorted(char_rows(sorted@)),
            forall|u: Seq<char>|
                char_rows(sorted@).contains(u) <==> discovered_from(hv.take(i as int), base@, u),
        decreases hrefs.len() - i,
    {
        let ghost before = char_rows(sorted@);
        let ghost mut added: Option<Seq<char>> = None;
        match &hrefs[i] {
            Some(h) => {
                let hc = chars_of(h.as_str());
                if looks_like_listing(&hc) {
                    let n = normalize_link(&hc, base);
                    proof {
                        added = Some(n@);
                    }
                    insert_sorted(&mut sorted, n);
                }
            },
            None => {},
        }
        assert forall|u: Seq<char>|
            char_rows(sorted@).contains(u) <==> discovered_from(hv.take(i + 1), base@, u) by {
            if discovered_from(hv.take(i + 1), base@, u) {
                let k = choose|k: int|
                    0 <= k < hv.take(i + 1).len() && (#[trigger] hv.take(i + 1)[k]) is Some
                        && mentions_listing(hv.take(i + 1)[k]->0) && u == normalized_link(
                        hv.take(i + 1)[k]->0,
                        base@,
                    );
                if k < i {
                    assert(hv.take(i as int)[k] == hv.take(i + 1)[k]);
                    assert(discovered_from(hv.take(i as int), base@, u));
                }
            }
            if discovered_from(hv.take(i as int), base@, u) {
                let k = choose|k: int|
                    0 <= k < hv.take(i as int).len() && (#[trigger] hv.take(i as int)[k]) is Some
                        && mentions_listing(hv.take(i as int)[k]->0) && u == normalized_link(
                        hv.take(i as int)[k]->0,
                        base@,
                    );
                assert(hv.take(i + 1)[k] == hv.take(i as int)[k]);
            }
            if added == Some(u) {
                assert(hv.take(i + 1)[i as int] == hv[i as int]);
            }
        }
        i += 1;
    }
    assert(hv.take(i as int) =~= hv);
    let mut r: Vec<String> = Vec::new();
    let mut k: usize = 0;
    while k < sorted.len()
        invariant
            k <= sorted.len(),
            r@.map_values(|s: String| s@) =~= char_rows(sorted@).take(k as int),
        decreases sorted.len() - k,
    {
        r.push(string_of(&sorted[k]));
        assert(char_rows(sorted@).take(k + 1) =~= char_rows(sorted@).take(k as int).push(
            sorted@[k as int]@,
        ));
        k += 1;
    }
    assert(char_rows(sorted@).take(k as int) =~= char_rows(sorted@));
    r
}

} // verus!
