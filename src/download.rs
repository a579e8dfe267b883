//! The download manager: deterministic file names, the skip-if-present rule
//! that makes re-runs idempotent, the sidecar metadata text and the file
//! timestamp taken from the post's date.

use vstd::prelude::*;
use crate::error::AppError;
use crate::post::{unknown_date, Post, PostView};
use crate::text::{chars_of, concat, decimal, decimal_of, string_of, trim, trimmed};

verus! {

/// The name a photo of `p` is saved under: `<id>_<index>_max` when the post
/// has more than one photo, else `<id>_max`; without extension.
pub open spec fn photo_stem(p: PostView, index: nat) -> Seq<char> {
    if p.photo_urls.len() > 1 {
        p.id + "_"@ + decimal(index) + "_max"@
    } else {
        p.id + "_max"@
    }
}

/// The photo's file name.
pub open spec fn photo_file(p: PostView, index: nat) -> Seq<char> {
    photo_stem(p, index) + ".jpg"@
}

/// The sidecar metadata file name: the photo's file name with its `.jpg`
/// extension replaced by `.metadata.txt`.
pub open spec fn metadata_file(p: PostView, index: nat) -> Seq<char> {
    photo_stem(p, index) + ".metadata.txt"@
}

/// The name a photo of `post` is saved under, without extension.
fn stem_of(post: &Post, index: usize) -> (r: Vec<char>)
    ensures
        r@ == photo_stem(post@, index as nat),
{
    let id = chars_of(post.id.as_str());
    if post.photo_urls.len() > 1 {
        let a = concat(&id, &chars_of("_"));
        let b = concat(&a, &decimal_of(index as u64));
        concat(&b, &chars_of("_max"))
    } else {
        concat(&id, &chars_of("_max"))
    }
}

/// The file name of photo `index` of `post`.
pub fn photo_file_name(post: &Post, index: usize) -> (r: String)
    ensures
        r@ == photo_file(post@, index as nat),
{
    string_of(&concat(&stem_of(post, index), &chars_of(".jpg")))
}

/// The sidecar metadata file name of photo `index` of `post`.
pub fn metadata_file_name(post: &Post, index: usize) -> (r: String)
    ensures
        r@ == metadata_file(post@, index as nat),
{
    string_of(&concat(&stem_of(post, index), &chars_of(".metadata.txt")))
}

/// One photo to download: where it comes from and the files it goes to.
#[derive(Debug, Clone, PartialEq, Eq)]
pub struct PhotoTarget {
    pub url: String,
    pub file_name: String,
    pub metadata_name: String,
}

/// What to do about a photo once its file has been looked for.
#[derive(Debug, PartialEq, Eq)]
pub enum PhotoStep {
    /// The file is there already: return its name, fetch nothing.
    UseExisting(String),
    /// Fetch the photo from this address and write its files.
    Fetch(PhotoTarget),
}

/// The error for a post without photos.
pub open spec fn no_photos_message(p: PostView) -> Seq<char> {
    "Post "@ + p.id + " has no photos to download"@
}

/// The error for an index past the last photo.
pub open spec fn out_of_range_message(index: nat, n: nat) -> Seq<char> {
    "Photo index "@ + decimal(index) + " out of range for post with "@ + decimal(n) + " photos"@
}

/// What to do about photo `index` of a post, as plain values.
pub enum PhotoPlan {
    NoPhotos,
    OutOfRange,
    UseExisting(Seq<char>),
    Fetch { url: Seq<char>, file: Seq<char>, metadata: Seq<char> },
}

/// What to do about photo `index` of `p`, given whether its file exists.
pub open spec fn photo_plan(p: PostView, index: nat, file_exists: bool) -> PhotoPlan {
    if p.photo_urls.len() == 0 {
        PhotoPlan::NoPhotos
    } else if index >= p.photo_urls.len() {
        PhotoPlan::OutOfRange
    } else if file_exists {
        PhotoPlan::UseExisting(photo_file(p, index))
    } else {
        PhotoPlan::Fetch {
            url: p.photo_urls[index as int],
            file: photo_file(p, index),
            metadata: metadata_file(p, index),
        }
    }
}

/// `r` carries out `plan` for post `p` and photo `index`.
pub open spec fn follows_plan(r: Result<PhotoStep, AppError>, plan: PhotoPlan, p: PostView, index: nat) -> bool {
    match plan {
        PhotoPlan::NoPhotos => r matches Err(AppError::Generic(m)) && m@ == no_photos_message(p),
        PhotoPlan::OutOfRange => r matches Err(AppError::Generic(m)) && m@ == out_of_range_message(
            index,
            p.photo_urls.len(),
        ),
        PhotoPlan::UseExisting(f) => r matches Ok(PhotoStep::UseExisting(x)) && x@ == f,
        PhotoPlan::Fetch { url, file, metadata } => r matches Ok(PhotoStep::Fetch(t)) && t.url@
            == url && t.file_name@ == file && t.metadata_name@ == metadata,
    }
}

/// Decides what to do about photo `index` of `post`, given whether its file
/// already exists in the output directory. An existing file is reused
/// without any request.
pub fn plan_photo(post: &Post, index: usize, file_exists: bool) -> (r: Result<PhotoStep, AppError>)
    ensures
        follows_plan(r, photo_plan(post@, index as nat, file_exists), post@, index as nat),
{
    if post.photo_urls.len() == 0 {
        let a = concat(&chars_of("Post "), &chars_of(post.id.as_str()));
        let m = concat(&a, &chars_of(" has no photos to download"));
        return Err(AppError::Generic(string_of(&m)));
    }
    if index >= post.photo_urls.len() {
        let a = concat(&chars_of("Photo index "), &decimal_of(index as u64));
        let b = concat(&a, &chars_of(" out of range for post with "));
        let c = concat(&b, &decimal_of(post.photo_urls.len() as u64));
        let m = concat(&c, &chars_of(" photos"));
        return Err(AppError::Generic(string_of(&m)));
    }
    let file_name = photo_file_name(post, index);
    if file_exists {
        return Ok(PhotoStep::UseExisting(file_name));
    }
    let url = post.photo_urls[index].clone();
    let metadata_name = metadata_file_name(post, index);
    Ok(PhotoStep::Fetch(PhotoTarget { url, file_name, metadata_name }))
}

/// Downloading the same photo twice into the same directory fetches it
/// once: the first call fetches into a file, and once that file exists the
/// second call fetches nothing and returns the same file.
pub proof fn lemma_download_idempotent(p: PostView, index: nat)
    requires
        index < p.photo_urls.len(),
    ensures
        photo_plan(p, index, false) matches PhotoPlan::Fetch { file, .. } && photo_plan(
            p,
            index,
            true,
        ) == PhotoPlan::UseExisting(file),
{
}

/// The sidecar metadata text for a post, with the school's location given
/// as its latitude and longitude texts and its keywords.
pub open spec fn metadata_content(p: PostView, lat: Seq<char>, lng: Seq<char>, keywords: Seq<char>) -> Seq<char> {
    "Title: "@ + p.title + "\nAuthor: "@ + p.author + "\nDate: "@ + p.date + "\nURL: "@ + p.url
        + "\nPost ID: "@ + p.id + "\nSchool Location: "@ + lat + ", "@ + lng + " ("@ + keywords
        + ")\n"@
}

/// The sidecar metadata text for `post`.
pub fn metadata_text(post: &Post, lat: &str, lng: &str, keywords: &str) -> (r: String)
    ensures
        r@ == metadata_content(post@, lat@, lng@, keywords@),
{
    let mut v = chars_of("Title: ");
    v = concat(&v, &chars_of(post.title.as_str()));
    v = concat(&v, &chars_of("\nAuthor: "));
    v = concat(&v, &chars_of(post.author.as_str()));
    v = concat(&v, &chars_of("\nDate: "));
    v = concat(&v, &chars_of(post.date.as_str()));
    v = concat(&v, &chars_of("\nURL: "));
    v = concat(&v, &chars_of(post.url.as_str()));
    v = concat(&v, &chars_of("\nPost ID: "));
    v = concat(&v, &chars_of(post.id.as_str()));
    v = concat(&v, &chars_of("\nSchool Location: "));
    v = concat(&v, &chars_of(lat));
    v = concat(&v, &chars_of(", "));
    v = concat(&v, &chars_of(lng));
    v = concat(&v, &chars_of(" ("));
    v = concat(&v, &chars_of(keywords));
    v = concat(&v, &chars_of(")\n"));
    string_of(&v)
}

/// What chrono's `DateTime::parse_from_rfc3339` makes of `s`: the Unix
/// timestamp of the instant, where `s` is an RFC 3339 date and time.
pub uninterp spec fn rfc3339_seconds(s: Seq<char>) -> Option<i64>;

/// What chrono's `NaiveDate::parse_from_str` with `%Y-%m-%d` makes of `s`:
/// the Unix timestamp of that day's midnight in UTC.
pub uninterp spec fn ymd_seconds(s: Seq<char>) -> Option<i64>;

/// Relies on `chrono::DateTime::parse_from_rfc3339` and `DateTime::timestamp`.
#[verifier::external_body]
fn parse_rfc3339(s: &str) -> (r: Option<i64>)
    ensures
        r == rfc3339_seconds(s@),
{
    chrono::DateTime::parse_from_rfc3339(s).ok().map(|d| d.timestamp())
}

/// Relies on `chrono::NaiveDate::parse_from_str` with `%Y-%m-%d`,
/// `NaiveDate::and_hms_opt(0, 0, 0)`, `NaiveDateTime::and_utc` and
/// `DateTime::timestamp`.
#[verifier::external_body]
fn parse_ymd(s: &str) -> (r: Option<i64>)
    ensures
        r == ymd_seconds(s@),
{
    chrono::NaiveDate::parse_from_str(s, "%Y-%m-%d").ok().and_then(|d| d.and_hms_opt(0, 0, 0)).map(
        |t| t.and_utc().timestamp(),
    )
}

/// The instant a post's date names, in seconds since the Unix epoch: RFC 3339
/// first, then a plain `YYYY-MM-DD`; an instant before the epoch is not kept.
pub open spec fn date_instant(date: Seq<char>) -> Option<u64> {
    if date.len() == 0 || date == unknown_date() {
        None
    } else {
        match rfc3339_seconds(date) {
            Some(t) => if t >= 0 {
                Some(t as u64)
            } else {
                None
            },
            None => match ymd_seconds(date) {
                Some(t) => if t >= 0 {
                    Some(t as u64)
                } else {
                    None
                },
                None => None,
            },
        }
    }
}

/// The modification time to give a photo of a post with this date, if the
/// date can be read; an unreadable date is no error, just no time.
pub fn photo_timestamp(date: &str) -> (r: Option<u64>)
    ensures
        r == date_instant(date@),
{
    let d = chars_of(date);
    if d.len() == 0 || crate::json::same_text(date, "Unknown Date") {
        return None;
    }
    let parsed = match parse_rfc3339(date) {
        Some(t) => Some(t),
        None => parse_ymd(date),
    };
    match parsed {
        Some(t) => if t >= 0 {
            Some(t as u64)
        } else {
            None
        },
        None => None,
    }
}

/// Downloading every photo of a post, one index after another.
pub struct DownloadAll {
    /// The index of the photo last requested.
    pub next: usize,
    /// How many photos the post has.
    pub total: usize,
    /// The files saved so far, in index order.
    pub saved: Vec<String>,
}

/// What the host program is to do next.
#[derive(Debug, PartialEq, Eq)]
pub enum BatchAction {
    /// Download photo `index` and hand back its file name, or the error.
    Download(usize),
    /// All photos were tried: these files were saved.
    Finish(Vec<String>),
}

impl DownloadAll {
    /// Begins downloading every photo of `post`, the first one first.
    pub fn start(post: &Post) -> (r: (DownloadAll, BatchAction))
        ensures
            r.0.total == post.photo_urls.len(),
            r.0.next == 0,
            r.0.saved@.len() == 0,
            post.photo_urls.len() == 0 ==> (r.1 matches BatchAction::Finish(v) && v@.len() == 0),
            post.photo_urls.len() > 0 ==> r.1 == BatchAction::Download(0),
    {
        let s = DownloadAll { next: 0, total: post.photo_urls.len(), saved: Vec::new() };
        if post.photo_urls.len() == 0 {
            (s, BatchAction::Finish(Vec::new()))
        } else {
            (s, BatchAction::Download(0))
        }
    }

    /// Takes the outcome of the last photo and says what to do next. A failed
    /// photo is skipped, never the end of the batch.
    pub fn on_photo(&mut self, outcome: Result<String, AppError>) -> (a: BatchAction)
        requires
            old(self).next < old(self).total,
        ensures
            final(self).total == old(self).total,
            final(self).next == old(self).next + 1,
            final(self).next < final(self).total ==> a == BatchAction::Download(final(self).next)
                && final(self).saved@ == grown(old(self).saved@, outcome),
            final(self).next == final(self).total ==> (a matches BatchAction::Finish(v) && v@
                == grown(old(self).saved@, outcome)),
    {
        match outcome {
            Ok(f) => self.saved.push(f),
            Err(_) => {},
        }
        self.next = self.next + 1;
        if self.next < self.total {
            BatchAction::Download(self.next)
        } else {
            let mut all: Vec<String> = Vec::new();
            std::mem::swap(&mut all, &mut self.saved);
            BatchAction::Finish(all)
        }
    }
}

/// The saved files after one more outcome: a saved file is appended, a
/// failure leaves the list as it was.
pub open spec fn grown(saved: Seq<String>, outcome: Result<String, AppError>) -> Seq<String> {
    match outcome {
        Ok(f) => saved.push(f),
        Err(_) => saved,
    }
}


/// A character that file names should not carry.
pub open spec fn is_unsafe_in_name(c: char) -> bool {
    ||| c == '/'
    ||| c == '\\'
    ||| c == ':'
    ||| c == '*'
    ||| c == '?'
    ||| c == '"'
    ||| c == '<'
    ||| c == '>'
    ||| c == '|'
    ||| c == '\''
}

/// `s` with spaces turned into underscores and unsafe characters dropped.
pub open spec fn cleaned(s: Seq<char>) -> Seq<char>
    decreases s.len(),
{
    if s.len() == 0 {
        Seq::empty()
    } else {
        let rest = cleaned(s.drop_last());
        let c = s.last();
        if c == ' ' {
            rest.push('_')
        } else if is_unsafe_in_name(c) {
            rest
        } else {
            rest.push(c)
        }
    }
}

/// The number of bytes of the UTF-8 encoding of `c`.
pub open spec fn utf8_width(c: char) -> nat {
    if c <= '\u{7F}' {
        1
    } else if c <= '\u{7FF}' {
        2
    } else if c <= '\u{FFFF}' {
        3
    } else {
        4
    }
}

/// The longest prefix of `s` whose UTF-8 encoding takes at most `budget` bytes.
pub open spec fn fit_prefix(s: Seq<char>, budget: nat) -> Seq<char>
    decreases s.len(),
{
    if s.len() > 0 && utf8_width(s[0]) <= budget {
        seq![s[0]] + fit_prefix(s.drop_first(), (budget - utf8_width(s[0])) as nat)
    } else {
        Seq::empty()
    }
}

/// A string made safe for a file name: trimmed, spaces turned into
/// underscores, path and shell metacharacters dropped, cut to 50 bytes.
pub open spec fn sanitized(s: Seq<char>) -> Seq<char> {
    fit_prefix(cleaned(trim(s)), 50)
}

fn is_unsafe_char(c: char) -> (r: bool)
    ensures
        r == is_unsafe_in_name(c),
{
    c == '/' || c == '\\' || c == ':' || c == '*' || c == '?' || c == '"' || c == '<' || c == '>'
        || c == '|' || c == '\''
}

fn width_of(c: char) -> (r: usize)
    ensures
        r == utf8_width(c),
{
    if c <= '\u{7F}' {
        1
    } else if c <= '\u{7FF}' {
        2
    } else if c <= '\u{FFFF}' {
        3
    } else {
        4
    }
}

/// Makes a string safe for use in a file name.
pub fn sanitize_filename(input: &str) -> (r: String)
    ensures
        r@ == sanitized(input@),
{
    let t = trimmed(&chars_of(input));
    let mut c: Vec<char> = Vec::new();
    let mut i: usize = 0;
    while i < t.len()
        invariant
            i <= t.len(),
            c@ == cleaned(t@.take(i as int)),
        decreases t.len() - i,
    {
        assert(t@.take(i + 1).drop_last() =~= t@.take(i as int));
        assert(t@.take(i + 1).last() == t@[i as int]);
        let ch = t[i];
        if ch == ' ' {
            c.push('_');
        } else if !is_unsafe_char(ch) {
            c.push(ch);
        }
        i += 1;
    }
    assert(t@.take(i as int) =~= t@);
    let mut out: Vec<char> = Vec::new();
    let mut budget: usize = 50;
    let mut k: usize = 0;
    assert(c@.skip(0) =~= c@);
    while k < c.len() && width_of(c[k]) <= budget
        invariant
            k <= c.len(),
            budget <= 50,
            out@ + fit_prefix(c@.skip(k as int), budget as nat) == fit_prefix(c@, 50),
        decreases c.len() - k,
    {
        let w = width_of(c[k]);
        proof {
            let rest = c@.skip(k as int);
            assert(rest[0] == c@[k as int]);
            assert(rest.drop_first() =~= c@.skip(k + 1));
            assert(out@.push(c@[k as int]) + fit_prefix(c@.skip(k + 1), (budget - w) as nat)
                =~= out@ + (seq![rest[0]] + fit_prefix(rest.drop_first(), (budget - w) as nat)));
        }
        out.push(c[k]);
        budget = budget - w;
        k += 1;
    }
    proof {
        assert(fit_prefix(c@.skip(k as int), budget as nat) =~= Seq::<char>::empty());
        assert(out@ + Seq::<char>::empty() =~= out@);
    }
    string_of(&out)
}

} // verus!
