//! Dual-format post parsing: a JSON listing and an HTML listing both become
//! the same sequence of posts.

use vstd::prelude::*;
use crate::error::AppError;
use crate::html::{
    attr_of_matches, attr_of_nested, opt_view, opts_view, select_attr, select_nested_attr,
    select_nested_text, select_text, selector_accepted, text_of_matches, text_of_nested,
    texts_view,
};
use crate::json::{json_document, member, opt_text, parse_json, text_of, JsonValue};
use crate::post::{
    posts_view, synthesize_id, synthesized_id, unknown_author, unknown_date, untitled, Post,
    PostView,
};
use crate::endpoints::{root_domain, root_of};
use crate::text::{
    chars_of, concat, contains, decimal, decimal_of, has, join, joined,
    starts_with, begins_with, string_of, trim, trimmed,
};

verus! {

// ---------------------------------------------------------------- JSON path

/// The array of posts in a JSON listing: the document itself where it is an
/// array, else its `posts` member, else its `data` member, the first of these
/// that is present; where the one present is no array, or none is, the message
/// of the parse error.
pub open spec fn posts_array(v: JsonValue) -> Result<Seq<JsonValue>, Seq<char>> {
    match v {
        JsonValue::Array(a) => Ok(a@),
        _ => match member(v, "posts"@) {
            Some(JsonValue::Array(a)) => Ok(a@),
            Some(_) => Err("Posts field is not an array"@),
            None => match member(v, "data"@) {
                Some(JsonValue::Array(a)) => Ok(a@),
                Some(_) => Err("Data field is not an array"@),
                None => Err("Could not find posts array in JSON response"@),
            },
        },
    }
}

/// The text of member `key` of `o`, where it is a string.
pub open spec fn str_member(o: JsonValue, key: Seq<char>) -> Option<Seq<char>> {
    opt_text(member(o, key))
}

/// The first of two optional texts that is present.
pub open spec fn first_some(a: Option<Seq<char>>, b: Option<Seq<char>>) -> Option<Seq<char>> {
    if a is Some {
        a
    } else {
        b
    }
}

/// `v` where it is present, else `d`.
pub open spec fn or_default(v: Option<Seq<char>>, d: Seq<char>) -> Seq<char> {
    match v {
        Some(s) => s,
        None => d,
    }
}

/// The plain text of an HTML fragment: the text nodes under its root element
/// joined by single spaces, then trimmed.
pub open spec fn markup_text(h: Seq<char>) -> Seq<char> {
    if selector_accepted("html"@) && text_of_matches(h, "html"@).len() > 0 {
        trim(join(text_of_matches(h, "html"@)[0], " "@))
    } else {
        Seq::empty()
    }
}

/// The trimmed text of the HTML fragment in member `key`, where that member is
/// a string whose text is not empty.
pub open spec fn markup_member(o: JsonValue, key: Seq<char>) -> Option<Seq<char>> {
    match member(o, key) {
        Some(JsonValue::Str(h)) => if markup_text(h@).len() > 0 {
            Some(markup_text(h@))
        } else {
            None
        },
        _ => None,
    }
}

/// The identifier of the JSON post at `index`.
pub open spec fn json_id(index: nat, o: JsonValue) -> Seq<char> {
    match member(o, "id"@) {
        Some(JsonValue::Str(s)) => s@,
        Some(JsonValue::Number(Some(n))) => decimal(n as nat),
        _ => synthesized_id(index),
    }
}

/// The title of a JSON post: the text of its `html` fragment, else the first
/// string of `normalized_text`, `title`, `text` and `content`.
pub open spec fn json_title(o: JsonValue) -> Seq<char> {
    or_default(
        first_some(
            markup_member(o, "html"@),
            first_some(
                str_member(o, "normalized_text"@),
                first_some(
                    str_member(o, "title"@),
                    first_some(str_member(o, "text"@), str_member(o, "content"@)),
                ),
            ),
        ),
        untitled(),
    )
}

/// The author of a JSON post: the text of its `author` fragment, else the
/// first string of `author_name` and `user`.
pub open spec fn json_author(o: JsonValue) -> Seq<char> {
    or_default(
        first_some(
            markup_member(o, "author"@),
            first_some(str_member(o, "author_name"@), str_member(o, "user"@)),
        ),
        unknown_author(),
    )
}

/// The date of a JSON post: the first string of `date`, `created_at` and
/// `timestamp`.
pub open spec fn json_date(o: JsonValue) -> Seq<char> {
    or_default(
        first_some(
            str_member(o, "date"@),
            first_some(str_member(o, "created_at"@), str_member(o, "timestamp"@)),
        ),
        unknown_date(),
    )
}

/// The address of a JSON post: the first string of `url` and `link`.
pub open spec fn json_url(o: JsonValue) -> Seq<char> {
    or_default(first_some(str_member(o, "url"@), str_member(o, "link"@)), Seq::empty())
}

/// The address one entry of a photo array gives: the entry itself where it is
/// a string, else its `url` member where that is a string.
pub open spec fn entry_url(x: JsonValue) -> Option<Seq<char>> {
    match x {
        JsonValue::Str(s) => Some(s@),
        _ => opt_text(member(x, "url"@)),
    }
}

/// The addresses that the entries of a photo array give, in order.
pub open spec fn entry_urls(items: Seq<JsonValue>) -> Seq<Seq<char>>
    decreases items.len(),
{
    if items.len() == 0 {
        Seq::empty()
    } else {
        match entry_url(items.last()) {
            Some(u) => entry_urls(items.drop_last()).push(u),
            None => entry_urls(items.drop_last()),
        }
    }
}

/// A non-empty address as a one-element list, an empty one as no element.
pub open spec fn unless_empty(u: Seq<char>) -> Seq<Seq<char>> {
    if u.len() == 0 {
        Seq::empty()
    } else {
        seq![u]
    }
}

/// The single high-resolution address of a JSON post, if any:
/// `original_photo_url`, else `photo_url`.
pub open spec fn json_lead_photo(o: JsonValue) -> Seq<Seq<char>> {
    match member(o, "original_photo_url"@) {
        Some(JsonValue::Str(u)) => unless_empty(u@),
        _ => match member(o, "photo_url"@) {
            Some(JsonValue::Str(u)) => unless_empty(u@),
            _ => Seq::empty(),
        },
    }
}

/// The addresses from a JSON post's `photos` array, else its `images` array.
pub open spec fn json_photo_list(o: JsonValue) -> Seq<Seq<char>> {
    match member(o, "photos"@) {
        Some(JsonValue::Array(a)) => entry_urls(a@),
        _ => match member(o, "images"@) {
            Some(JsonValue::Array(a)) => entry_urls(a@),
            _ => Seq::empty(),
        },
    }
}

/// The post that the JSON object `o` at `index` describes.
pub open spec fn json_post(index: nat, o: JsonValue) -> PostView {
    PostView {
        id: json_id(index, o),
        title: json_title(o),
        author: json_author(o),
        date: json_date(o),
        url: json_url(o),
        photo_urls: json_lead_photo(o) + json_photo_list(o),
    }
}

/// Element `i` is the first element of `items` that is not an object.
pub open spec fn is_first_non_object(items: Seq<JsonValue>, i: int) -> bool {
    &&& 0 <= i < items.len()
    &&& !(items[i] is Object)
    &&& forall|j: int| 0 <= j < i ==> (#[trigger] items[j]) is Object
}

/// The message for an element of the post array that is not an object.
pub open spec fn non_object_message(i: nat) -> Seq<char> {
    "Post "@ + decimal(i) + " is not a valid object"@
}

/// The posts of a JSON post array, one per element in order, or the message
/// naming the first element that is not an object.
pub open spec fn json_posts(items: Seq<JsonValue>) -> Result<Seq<PostView>, Seq<char>> {
    if exists|i: int| is_first_non_object(items, i) {
        Err(non_object_message((choose|i: int| is_first_non_object(items, i)) as nat))
    } else {
        Ok(Seq::new(items.len(), |i: int| json_post(i as nat, items[i])))
    }
}

/// The posts of a JSON listing, or the message of its parse error.
pub open spec fn json_listing(v: JsonValue) -> Result<Seq<PostView>, Seq<char>> {
    match posts_array(v) {
        Ok(items) => json_posts(items),
        Err(m) => Err(m),
    }
}

/// The posts of a JSON listing text, or nothing where it is not one.
pub open spec fn json_outcome(body: Seq<char>) -> Option<Seq<PostView>> {
    match json_document(body) {
        Some(v) => match json_listing(v) {
            Ok(ps) => Some(ps),
            Err(_) => None,
        },
        None => None,
    }
}

/// `r` is the outcome `want` of a listing: its posts, or a parse error with
/// the given message.
pub open spec fn listing_result(r: Result<Vec<Post>, AppError>, want: Result<Seq<PostView>, Seq<char>>) -> bool {
    match want {
        Ok(ps) => r matches Ok(x) && posts_view(x@) == ps,
        Err(m) => r matches Err(AppError::Parse(x)) && x@ == m,
    }
}

fn parse_error(m: &str) -> (r: AppError)
    ensures
        r matches AppError::Parse(x) && x@ == m@,
{
    AppError::Parse(String::from_str(m))
}

/// The text of member `key` of `o`, where it is a string.
fn str_of<'a>(o: &'a JsonValue, key: &str) -> (r: Option<&'a String>)
    ensures
        opt_ref_view(r) == str_member(*o, key@),
{
    match o.get(key) {
        Some(JsonValue::Str(s)) => Some(s),
        _ => None,
    }
}

/// The characters of an optional string reference.
pub open spec fn opt_ref_view(o: Option<&String>) -> Option<Seq<char>> {
    match o {
        Some(s) => Some(s@),
        None => None,
    }
}

/// The first of two optional texts that is present.
fn pick<'a>(a: Option<&'a String>, b: Option<&'a String>) -> (r: Option<&'a String>)
    ensures
        opt_ref_view(r) == first_some(opt_ref_view(a), opt_ref_view(b)),
{
    match a {
        Some(x) => Some(x),
        None => b,
    }
}

/// The text where present, else `d`.
fn text_or(v: Option<&String>, d: &str) -> (r: String)
    ensures
        r@ == or_default(opt_ref_view(v), d@),
{
    match v {
        Some(s) => s.clone(),
        None => String::from_str(d),
    }
}

/// The plain text of an HTML fragment, trimmed.
pub fn markup_plain_text(h: &str) -> (r: Vec<char>)
    ensures
        r@ == markup_text(h@),
{
    match select_text(h, "html") {
        Some(v) => {
            if v.len() > 0 {
                let sep = chars_of(" ");
                let j = joined(&v[0], &sep);
                trimmed(&j)
            } else {
                Vec::new()
            }
        },
        None => Vec::new(),
    }
}

/// The trimmed text of the HTML fragment in member `key`, where it has some.
fn markup_of(o: &JsonValue, key: &str) -> (r: Option<String>)
    ensures
        match r {
            Some(s) => markup_member(*o, key@) == Some(s@),
            None => markup_member(*o, key@) is None,
        },
{
    match o.get(key) {
        Some(JsonValue::Str(h)) => {
            let t = markup_plain_text(h.as_str());
            if t.len() > 0 {
                Some(string_of(&t))
            } else {
                None
            }
        },
        _ => None,
    }
}

/// The first of a fragment's text and a plain text, else `d`.
fn markup_or(m: Option<String>, v: Option<&String>, d: &str) -> (r: String)
    ensures
        r@ == or_default(
            first_some(
                match m {
                    Some(s) => Some(s@),
                    None => None,
                },
                opt_ref_view(v),
            ),
            d@,
        ),
{
    match m {
        Some(s) => s,
        None => text_or(v, d),
    }
}

/// The addresses that the entries of a JSON photo array give, in order.
pub fn photo_entries(items: &Vec<JsonValue>) -> (r: Vec<String>)
    ensures
        r@.map_values(|s: String| s@) == entry_urls(items@),
{
    let mut r: Vec<String> = Vec::new();
    let mut i: usize = 0;
    while i < items.len()
        invariant
            i <= items.len(),
            r@.map_values(|s: String| s@) == entry_urls(items@.take(i as int)),
        decreases items.len() - i,
    {
        let x = &items[i];
        assert(items@.take(i + 1).drop_last() =~= items@.take(i as int));
        assert(items@.take(i + 1).last() == items@[i as int]);
        let u = match x {
            JsonValue::Str(s) => Some(s),
            _ => match x.get("url") {
                Some(JsonValue::Str(s)) => Some(s),
                _ => None,
            },
        };
        match u {
            Some(s) => {
                r.push(s.clone());
                assert(r@.map_values(|s: String| s@) =~= entry_urls(items@.take(i as int)).push(
                    s@,
                ));
            },
            None => {},
        }
        i += 1;
    }
    assert(items@.take(i as int) =~= items@);
    r
}

/// The post that the JSON object `o` at `index` describes.
pub fn post_from_json(index: usize, o: &JsonValue) -> (r: Post)
    ensures
        r@ == json_post(index as nat, *o),
{
    let id = match o.get("id") {
        Some(JsonValue::Str(s)) => s.clone(),
        Some(JsonValue::Number(Some(n))) => string_of(&decimal_of(*n)),
        _ => synthesize_id(index),
    };
    let title = markup_or(
        markup_of(o, "html"),
        pick(
            str_of(o, "normalized_text"),
            pick(str_of(o, "title"), pick(str_of(o, "text"), str_of(o, "content"))),
        ),
        "Untitled Post",
    );
    let author = markup_or(
        markup_of(o, "author"),
        pick(str_of(o, "author_name"), str_of(o, "user")),
        "Unknown Author",
    );
    let date = text_or(
        pick(str_of(o, "date"), pick(str_of(o, "created_at"), str_of(o, "timestamp"))),
        "Unknown Date",
    );
    let url = text_or(pick(str_of(o, "url"), str_of(o, "link")), "");
    proof {
        reveal_strlit("");
    }
    let mut photo_urls: Vec<String> = Vec::new();
    match o.get("original_photo_url") {
        Some(JsonValue::Str(u)) => {
            if u.as_str().unicode_len() > 0 {
                photo_urls.push(u.clone());
            }
        },
        _ => match o.get("photo_url") {
            Some(JsonValue::Str(u)) => {
                if u.as_str().unicode_len() > 0 {
                    photo_urls.push(u.clone());
                }
            },
            _ => {},
        },
    }
    assert(photo_urls@.map_values(|s: String| s@) =~= json_lead_photo(*o));
    let rest = match o.get("photos") {
        Some(JsonValue::Array(a)) => photo_entries(a),
        _ => match o.get("images") {
            Some(JsonValue::Array(a)) => photo_entries(a),
            _ => Vec::new(),
        },
    };
    assert(rest@.map_values(|s: String| s@) =~= json_photo_list(*o));
    let ghost lead = photo_urls@;
    let mut k: usize = 0;
    while k < rest.len()
        invariant
            k <= rest.len(),
            photo_urls@ == lead + rest@.take(k as int),
        decreases rest.len() - k,
    {
        photo_urls.push(rest[k].clone());
        assert(lead + rest@.take(k + 1) =~= (lead + rest@.take(k as int)).push(rest@[k as int]));
        k += 1;
    }
    assert(rest@.take(k as int) =~= rest@);
    assert(photo_urls@.map_values(|s: String| s@) =~= json_lead_photo(*o) + json_photo_list(
        *o,
    ));
    assert(id@ == json_id(index as nat, *o));
    assert(title@ == json_title(*o));
    assert(author@ == json_author(*o));
    assert(date@ == json_date(*o));
    assert(url@ == json_url(*o));
    Post { id, title, author, date, url, photo_urls }
}

/// The message naming element `i` as no object.
fn non_object_error(i: usize) -> (r: AppError)
    ensures
        r matches AppError::Parse(x) && x@ == non_object_message(i as nat),
{
    let a = concat(&chars_of("Post "), &decimal_of(i as u64));
    AppError::Parse(string_of(&concat(&a, &chars_of(" is not a valid object"))))
}

/// The posts of a parsed JSON listing: the document itself, or its `posts`
/// or `data` member, must be an array of objects.
pub fn posts_from_json_value(v: &JsonValue) -> (r: Result<Vec<Post>, AppError>)
    ensures
        listing_result(r, json_listing(*v)),
{
    let items = match v.as_array() {
        Some(a) => a,
        None => match v.get("posts") {
            Some(p) => match p.as_array() {
                Some(a) => a,
                None => {
                    return Err(parse_error("Posts field is not an array"));
                },
            },
            None => match v.get("data") {
                Some(p) => match p.as_array() {
                    Some(a) => a,
                    None => {
                        return Err(parse_error("Data field is not an array"));
                    },
                },
                None => {
                    return Err(parse_error("Could not find posts array in JSON response"));
                },
            },
        },
    };
    assert(posts_array(*v) == Ok::<Seq<JsonValue>, Seq<char>>(items@));
    let mut posts: Vec<Post> = Vec::new();
    let mut i: usize = 0;
    while i < items.len()
        invariant
            i <= items.len(),
            posts_array(*v) == Ok::<Seq<JsonValue>, Seq<char>>(items@),
            forall|j: int| 0 <= j < i ==> (#[trigger] items@[j]) is Object,
            posts_view(posts@) =~= Seq::new(i as nat, |j: int| json_post(j as nat, items@[j])),
        decreases items.len() - i,
    {
        let o = &items[i];
        match o {
            JsonValue::Object(_) => {},
            _ => {
                proof {
                    assert(is_first_non_object(items@, i as int));
                    let c = choose|c: int| is_first_non_object(items@, c);
                    if c < i {
                        assert(items@[c] is Object);
                    } else if i < c {
                        assert(items@[i as int] is Object);
                    }
                    assert(c == i);
                }
                return Err(non_object_error(i));
            },
        }
        let p = post_from_json(i, o);
        let ghost before = posts@;
        posts.push(p);
        assert(posts_view(posts@) =~= posts_view(before).push(p@));
        i += 1;
    }
    assert forall|c: int| !is_first_non_object(items@, c) by {
        if 0 <= c < items@.len() {
            assert(items@[c] is Object);
        }
    }
    Ok(posts)
}

/// The posts of a JSON listing text.
pub fn parse_posts_json(body: &str) -> (r: Result<Vec<Post>, AppError>)
    ensures
        r is Ok <==> json_outcome(body@) is Some,
        r matches Ok(ps) ==> json_outcome(body@) == Some(posts_view(ps@)),
        r matches Err(e) ==> e is Parse,
        match json_document(body@) {
            Some(v) => listing_result(r, json_listing(v)),
            None => r matches Err(AppError::Parse(x)) && starts_with(
                x@,
                "Failed to parse JSON response: "@,
            ),
        },
{
    match parse_json(body) {
        Ok(v) => posts_from_json_value(&v),
        Err(m) => {
            let head = chars_of("Failed to parse JSON response: ");
            let all = concat(&head, &chars_of(m.as_str()));
            proof {
                assert(all@.subrange(0, head@.len() as int) =~= head@);
            }
            Err(AppError::Parse(string_of(&all)))
        },
    }
}

} // verus!

verus! {

// ---------------------------------------------------------------- HTML path

/// What the selectors pick out of an HTML listing, one row per element of
/// class `observation`, in the order scraper's selection yields them.
#[derive(Debug, Clone)]
pub struct Observations {
    /// The `id` attribute of each observation.
    pub ids: Vec<Option<String>>,
    /// For each observation, the text nodes of each `.observation-text` in it.
    pub texts: Vec<Vec<Vec<String>>>,
    /// For each observation, the text nodes of each `.observation-author` in it.
    pub authors: Vec<Vec<Vec<String>>>,
    /// For each observation, the text nodes of each `.observation-date` in it.
    pub dates: Vec<Vec<Vec<String>>>,
    /// For each observation, the `href` of each `a.observation-link` in it.
    pub links: Vec<Vec<Option<String>>>,
    /// For each observation, the `src` of each `.observation-photo img` in it.
    pub photos: Vec<Vec<Option<String>>>,
}

/// Text rows as character sequences.
pub open spec fn text_rows(v: Seq<Vec<Vec<String>>>) -> Seq<Seq<Seq<Seq<char>>>> {
    v.map_values(|row: Vec<Vec<String>>| row@.map_values(|t: Vec<String>| texts_view(t@)))
}

/// Attribute rows as character sequences.
pub open spec fn attr_rows(v: Seq<Vec<Option<String>>>) -> Seq<Seq<Option<Seq<char>>>> {
    v.map_values(|row: Vec<Option<String>>| opts_view(row@))
}

/// The observations as plain sequences.
pub struct ObservationsView {
    pub ids: Seq<Option<Seq<char>>>,
    pub texts: Seq<Seq<Seq<Seq<char>>>>,
    pub authors: Seq<Seq<Seq<Seq<char>>>>,
    pub dates: Seq<Seq<Seq<Seq<char>>>>,
    pub links: Seq<Seq<Option<Seq<char>>>>,
    pub photos: Seq<Seq<Option<Seq<char>>>>,
}

impl View for Observations {
    type V = ObservationsView;

    open spec fn view(&self) -> ObservationsView {
        ObservationsView {
            ids: opts_view(self.ids@),
            texts: text_rows(self.texts@),
            authors: text_rows(self.authors@),
            dates: text_rows(self.dates@),
            links: attr_rows(self.links@),
            photos: attr_rows(self.photos@),
        }
    }
}

/// The trimmed text of the first match in row `k`, or `d` where it has none.
pub open spec fn first_text(rows: Seq<Seq<Seq<Seq<char>>>>, k: int, d: Seq<char>) -> Seq<char> {
    if 0 <= k < rows.len() && rows[k].len() > 0 {
        trim(join(rows[k][0], " "@))
    } else {
        d
    }
}

/// `href` made absolute: kept where it starts with `http`, else put after `root`.
pub open spec fn absolute(href: Seq<char>, root: Seq<char>) -> Seq<char> {
    if starts_with(href, "http"@) {
        href
    } else {
        root + href
    }
}

/// The absolute link of the first match in row `k`, or empty.
pub open spec fn first_link(rows: Seq<Seq<Option<Seq<char>>>>, k: int, root: Seq<char>) -> Seq<
    char,
> {
    if 0 <= k < rows.len() && rows[k].len() > 0 {
        match rows[k][0] {
            Some(h) => absolute(h, root),
            None => Seq::empty(),
        }
    } else {
        Seq::empty()
    }
}

/// The absolute addresses of the sources present in `srcs`, in order.
pub open spec fn sources(srcs: Seq<Option<Seq<char>>>, root: Seq<char>) -> Seq<Seq<char>>
    decreases srcs.len(),
{
    if srcs.len() == 0 {
        Seq::empty()
    } else {
        match srcs.last() {
            Some(s) => sources(srcs.drop_last(), root).push(absolute(s, root)),
            None => sources(srcs.drop_last(), root),
        }
    }
}

/// The post that observation `k` describes.
pub open spec fn html_post(k: int, o: ObservationsView, root: Seq<char>) -> PostView {
    PostView {
        id: if 0 <= k < o.ids.len() && o.ids[k] is Some {
            o.ids[k]->0
        } else {
            synthesized_id(k as nat)
        },
        title: first_text(o.texts, k, untitled()),
        author: first_text(o.authors, k, unknown_author()),
        date: first_text(o.dates, k, unknown_date()),
        url: first_link(o.links, k, root),
        photo_urls: if 0 <= k < o.photos.len() {
            sources(o.photos[k], root)
        } else {
            Seq::empty()
        },
    }
}

/// The posts that the observations describe, one per observation.
pub open spec fn html_posts(o: ObservationsView, root: Seq<char>) -> Seq<PostView> {
    Seq::new(o.ids.len(), |k: int| html_post(k, o, root))
}

/// All six selectors of an HTML listing are accepted.
pub open spec fn listing_selectors_accepted() -> bool {
    &&& selector_accepted(".observation"@)
    &&& selector_accepted(".observation-text"@)
    &&& selector_accepted(".observation-author"@)
    &&& selector_accepted(".observation-date"@)
    &&& selector_accepted("a.observation-link"@)
    &&& selector_accepted(".observation-photo img"@)
}

/// What the selectors pick out of the HTML listing `doc`.
pub open spec fn observations_of(doc: Seq<char>) -> ObservationsView {
    ObservationsView {
        ids: attr_of_matches(doc, ".observation"@, "id"@),
        texts: text_of_nested(doc, ".observation"@, ".observation-text"@),
        authors: text_of_nested(doc, ".observation"@, ".observation-author"@),
        dates: text_of_nested(doc, ".observation"@, ".observation-date"@),
        links: attr_of_nested(doc, ".observation"@, "a.observation-link"@, "href"@),
        photos: attr_of_nested(doc, ".observation"@, ".observation-photo img"@, "src"@),
    }
}

/// The posts of the HTML listing `doc` fetched under `base`, or nothing where
/// a selector is refused.
pub open spec fn html_outcome(doc: Seq<char>, base: Seq<char>) -> Option<Seq<PostView>> {
    if listing_selectors_accepted() {
        Some(html_posts(observations_of(doc), root_domain(base)))
    } else {
        None
    }
}

/// `href` made absolute against `root`.
fn absolute_of(href: &String, root: &Vec<char>) -> (r: String)
    ensures
        r@ == absolute(href@, root@),
{
    let h = chars_of(href.as_str());
    if begins_with(&h, &chars_of("http")) {
        href.clone()
    } else {
        string_of(&concat(root, &h))
    }
}

/// The trimmed text of the first match in `row`, or `d`.
fn text_in(rows: &Vec<Vec<Vec<String>>>, k: usize, d: &str) -> (r: String)
    ensures
        r@ == first_text(text_rows(rows@), k as int, d@),
{
    if k < rows.len() && rows[k].len() > 0 {
        let sep = chars_of(" ");
        let j = joined(&rows[k][0], &sep);
        string_of(&trimmed(&j))
    } else {
        String::from_str(d)
    }
}

/// The post that observation `k` describes.
fn post_from_observation(o: &Observations, k: usize, root: &Vec<char>) -> (r: Post)
    ensures
        r@ == html_post(k as int, o@, root@),
{
    let id = if k < o.ids.len() && o.ids[k].is_some() {
        match &o.ids[k] {
            Some(s) => s.clone(),
            None => synthesize_id(k),
        }
    } else {
        synthesize_id(k)
    };
    let title = text_in(&o.texts, k, "Untitled Post");
    let author = text_in(&o.authors, k, "Unknown Author");
    let date = text_in(&o.dates, k, "Unknown Date");
    let url = if k < o.links.len() && o.links[k].len() > 0 {
        match &o.links[k][0] {
            Some(h) => absolute_of(h, root),
            None => String::new(),
        }
    } else {
        String::new()
    };
    let mut photo_urls: Vec<String> = Vec::new();
    if k < o.photos.len() {
        let srcs = &o.photos[k];
        let ghost sv = opts_view(srcs@);
        let mut i: usize = 0;
        while i < srcs.len()
            invariant
                i <= srcs.len(),
                sv == opts_view(srcs@),
                photo_urls@.map_values(|s: String| s@) == sources(sv.take(i as int), root@),
            decreases srcs.len() - i,
        {
            assert(sv.take(i + 1).drop_last() =~= sv.take(i as int));
            assert(sv.take(i + 1).last() == opt_view(srcs@[i as int]));
            match &srcs[i] {
                Some(s) => {
                    let a = absolute_of(s, root);
                    let ghost before = photo_urls@;
                    photo_urls.push(a);
                    assert(photo_urls@.map_values(|s: String| s@) =~= before.map_values(
                        |s: String| s@,
                    ).push(a@));
                },
                None => {},
            }
            i += 1;
        }
        assert(sv.take(i as int) =~= sv);
        assert(o@.photos[k as int] == sv);
    }
    assert(photo_urls@.map_values(|s: String| s@) =~= html_post(k as int, o@, root@).photo_urls);
    assert(author@ == html_post(k as int, o@, root@).author);
    assert(date@ == html_post(k as int, o@, root@).date);
    assert(id@ == html_post(k as int, o@, root@).id);
    assert(title@ == html_post(k as int, o@, root@).title);
    assert(url@ == html_post(k as int, o@, root@).url);
    Post { id, title, author, date, url, photo_urls }
}

/// The posts that the observations describe, resolving relative links
/// against the host part of `base`.
pub fn posts_from_observations(o: &Observations, base: &str) -> (r: Vec<Post>)
    ensures
        posts_view(r@) == html_posts(o@, root_domain(base@)),
{
    let root = root_of(base);
    let mut posts: Vec<Post> = Vec::new();
    let mut k: usize = 0;
    while k < o.ids.len()
        invariant
            k <= o.ids.len(),
            root@ == root_domain(base@),
            posts_view(posts@) =~= Seq::new(k as nat, |j: int| html_post(j, o@, root@)),
        decreases o.ids.len() - k,
    {
        let p = post_from_observation(o, k, &root);
        let ghost before = posts@;
        posts.push(p);
        assert(posts_view(posts@) =~= posts_view(before).push(p@));
        k += 1;
    }
    posts
}

/// The posts of an HTML listing fetched under `base`.
pub fn parse_posts_html(body: &str, base: &str) -> (r: Result<Vec<Post>, AppError>)
    ensures
        r is Ok <==> html_outcome(body@, base@) is Some,
        r matches Ok(ps) ==> html_outcome(body@, base@) == Some(posts_view(ps@)),
        r matches Err(e) ==> e is Parse,
{
    let ids = select_attr(body, ".observation", "id");
    let texts = select_nested_text(body, ".observation", ".observation-text");
    let authors = select_nested_text(body, ".observation", ".observation-author");
    let dates = select_nested_text(body, ".observation", ".observation-date");
    let links = select_nested_attr(body, ".observation", "a.observation-link", "href");
    let photos = select_nested_attr(body, ".observation", ".observation-photo img", "src");
    match (ids, texts, authors, dates, links, photos) {
        (Some(ids), Some(texts), Some(authors), Some(dates), Some(links), Some(photos)) => {
            let o = Observations { ids, texts, authors, dates, links, photos };
            assert(o@ == observations_of(body@));
            Ok(posts_from_observations(&o, base))
        },
        _ => Err(parse_error("A listing selector was refused")),
    }
}

// ---------------------------------------------------------------- dispatch

/// The posts of a listing fetched from `url` under `base`: JSON where the
/// address names a `.json` resource, HTML otherwise.
pub open spec fn listing_outcome(url: Seq<char>, body: Seq<char>, base: Seq<char>) -> Option<
    Seq<PostView>,
> {
    if contains(url, ".json"@) {
        json_outcome(body)
    } else {
        html_outcome(body, base)
    }
}

/// The posts of a listing fetched from `url` under `base`.
pub fn parse_posts(url: &str, body: &str, base: &str) -> (r: Result<Vec<Post>, AppError>)
    ensures
        r is Ok <==> listing_outcome(url@, body@, base@) is Some,
        r matches Ok(ps) ==> listing_outcome(url@, body@, base@) == Some(posts_view(ps@)),
        r matches Err(e) ==> e is Parse,
{
    if has(&chars_of(url), &chars_of(".json")) {
        parse_posts_json(body)
    } else {
        parse_posts_html(body, base)
    }
}

} // verus!

verus! {

// ---------------------------------------------------------------- equivalence

/// A post whose fields survive both formats unchanged: its texts carry no
/// surrounding whitespace and its addresses are absolute.
pub open spec fn plain_post(p: PostView) -> bool {
    &&& trim(p.title) == p.title
    &&& trim(p.author) == p.author
    &&& trim(p.date) == p.date
    &&& starts_with(p.url, "http"@)
    &&& forall|i: int| 0 <= i < p.photo_urls.len() ==> starts_with(#[trigger] p.photo_urls[i], "http"@)
}

/// The array `a` lists the addresses `urls` as strings.
pub open spec fn lists_strings(a: Seq<JsonValue>, urls: Seq<Seq<char>>) -> bool {
    a.len() == urls.len() && forall|i: int| 0 <= i < a.len() ==> text_of(#[trigger] a[i]) == Some(urls[i])
}

/// The JSON object `o` states post `p` in the plain way: `id`,
/// `normalized_text`, `author_name`, `date` and `url` as strings, and the
/// photos as a `photos` array of strings.
pub open spec fn json_encodes(o: JsonValue, p: PostView) -> bool {
    &&& o is Object
    &&& opt_text(member(o, "id"@)) == Some(p.id)
    &&& member(o, "html"@) is None
    &&& opt_text(member(o, "normalized_text"@)) == Some(p.title)
    &&& member(o, "author"@) is None
    &&& opt_text(member(o, "author_name"@)) == Some(p.author)
    &&& opt_text(member(o, "date"@)) == Some(p.date)
    &&& opt_text(member(o, "url"@)) == Some(p.url)
    &&& member(o, "original_photo_url"@) is None
    &&& member(o, "photo_url"@) is None
    &&& match member(o, "photos"@) {
        Some(JsonValue::Array(a)) => lists_strings(a@, p.photo_urls),
        _ => false,
    }
}

/// Observation `k` states post `p`: its id, one text, author, date and link
/// element each, and one image per photo.
pub open spec fn html_encodes(o: ObservationsView, k: int, p: PostView) -> bool {
    &&& 0 <= k < o.ids.len()
    &&& k < o.texts.len() && k < o.authors.len() && k < o.dates.len()
    &&& k < o.links.len() && k < o.photos.len()
    &&& o.ids[k] == Some(p.id)
    &&& o.texts[k] == seq![seq![p.title]]
    &&& o.authors[k] == seq![seq![p.author]]
    &&& o.dates[k] == seq![seq![p.date]]
    &&& o.links[k] == seq![Some(p.url)]
    &&& o.photos[k] == p.photo_urls.map_values(|u: Seq<char>| Some(u))
}

proof fn lemma_entry_urls_of_strings(a: Seq<JsonValue>, urls: Seq<Seq<char>>)
    requires
        lists_strings(a, urls),
    ensures
        entry_urls(a) == urls,
    decreases a.len(),
{
    if a.len() > 0 {
        let n = a.len() - 1;
        assert(text_of(a[n]) == Some(urls[n]));
        lemma_entry_urls_of_strings(a.drop_last(), urls.drop_last());
        assert(urls.drop_last().push(urls.last()) =~= urls);
    } else {
        assert(urls =~= Seq::<Seq<char>>::empty());
    }
}

proof fn lemma_sources_of_absolute(urls: Seq<Seq<char>>, root: Seq<char>)
    requires
        forall|i: int| 0 <= i < urls.len() ==> starts_with(#[trigger] urls[i], "http"@),
    ensures
        sources(urls.map_values(|u: Seq<char>| Some(u)), root) == urls,
    decreases urls.len(),
{
    let srcs = urls.map_values(|u: Seq<char>| Some(u));
    if urls.len() > 0 {
        let n = urls.len() - 1;
        assert(starts_with(urls[n], "http"@));
        assert(srcs.drop_last() =~= urls.drop_last().map_values(|u: Seq<char>| Some(u)));
        lemma_sources_of_absolute(urls.drop_last(), root);
        assert(urls.drop_last().push(urls.last()) =~= urls);
    } else {
        assert(urls =~= Seq::<Seq<char>>::empty());
    }
}

/// A JSON listing and an HTML listing that state the same plain posts parse
/// to exactly those posts, so the two formats give equal post sequences.
pub proof fn lemma_dual_format_equivalence(
    items: Seq<JsonValue>,
    o: ObservationsView,
    root: Seq<char>,
    posts: Seq<PostView>,
)
    requires
        items.len() == posts.len(),
        o.ids.len() == posts.len(),
        forall|k: int|
            0 <= k < posts.len() ==> plain_post(#[trigger] posts[k]) && json_encodes(items[k], posts[k])
                && html_encodes(o, k, posts[k]),
    ensures
        json_posts(items) == Ok::<Seq<PostView>, Seq<char>>(posts),
        html_posts(o, root) == posts,
{
    assert forall|i: int| 0 <= i < items.len() implies (#[trigger] items[i]) is Object by {
        assert(json_encodes(items[i], posts[i]));
    }
    assert forall|c: int| !is_first_non_object(items, c) by {
        if 0 <= c < items.len() {
            assert(items[c] is Object);
        }
    }
    assert forall|k: int| 0 <= k < posts.len() implies json_post(k as nat, items[k]) == posts[k]
        && html_post(k, o, root) == posts[k] by {
        let p = posts[k];
        let x = items[k];
        assert(plain_post(p) && json_encodes(x, p) && html_encodes(o, k, p));
        match member(x, "photos"@) {
            Some(JsonValue::Array(a)) => {
                lemma_entry_urls_of_strings(a@, p.photo_urls);
            },
            _ => {},
        }
        assert(json_lead_photo(x) + json_photo_list(x) =~= p.photo_urls);
        assert(member(x, "id"@) matches Some(JsonValue::Str(_)));
        assert(json_post(k as nat, x) == p);
        assert(seq![p.title].len() == 1);
        assert(join(seq![p.title], " "@) == p.title);
        assert(join(seq![p.author], " "@) == p.author);
        assert(join(seq![p.date], " "@) == p.date);
        assert(starts_with(p.url, "http"@));
        lemma_sources_of_absolute(p.photo_urls, root);
        assert(html_post(k, o, root) == p);
    }
    assert(Seq::new(items.len(), |i: int| json_post(i as nat, items[i])) =~= posts);
    assert(html_posts(o, root) =~= posts);
}

} // verus!
