//! Release lookup on the hosting service: the request URLs, the decoding of a
//! response into a release, and the mapping of failures to [`GithubError`].

use vstd::prelude::*;

verus! {

#[verifier::external_type_specification]
#[verifier::external_body]
pub struct ExUreqError(ureq::Error);

/// Seconds that a release lookup may take before it fails.
pub const RELEASE_TIMEOUT_SECS: u64 = 5;

/// The `Accept` header that asks for an asset's raw bytes rather than its
/// description.
pub const RAW_ASSET_ACCEPT: &'static str = "application/vnd.github.raw";

/// The remote project: its owner and its name.
#[derive(Debug, Clone)]
pub struct Repository {
    pub owner: String,
    pub repo: String,
}

/// The version label of a release.
#[derive(Debug, Clone)]
pub struct Tag(pub String);

/// One downloadable file of a release.
#[derive(Debug, Clone)]
pub struct Asset {
    pub name: String,
    pub download_url: String,
}

/// A release: its tag and its assets, in the order the service lists them.
#[derive(Debug, Clone)]
pub struct Release {
    pub tag: Tag,
    pub assets: Vec<Asset>,
}

/// One asset as the service describes it.
#[derive(Debug, Clone)]
pub struct AssetResponse {
    pub name: String,
    pub browser_download_url: String,
}

/// A release as the service describes it.
#[derive(Debug, Clone)]
pub struct ReleaseResponse {
    pub tag_name: String,
    pub assets: Vec<AssetResponse>,
}

#[derive(Debug, Clone)]
pub enum GithubError {
    /// The request failed: `status` is the HTTP status when one was received.
    Http { status: Option<u16>, detail: String },
    /// The response body could not be decoded.
    JsonDeserialization(String),
    RepositoryOrReleaseNotFound,
}

pub open spec fn release_url(owner: Seq<char>, repo: Seq<char>, tag: Option<Seq<char>>) -> Seq<
    char,
> {
    "https://api.github.com/repos/"@ + owner + "/"@ + repo + "/releases/"@ + match tag {
        Some(t) => "tags/"@ + t,
        None => "latest"@,
    }
}

pub open spec fn error_message(e: GithubError) -> Seq<char> {
    match e {
        GithubError::Http { detail, .. } => detail@,
        GithubError::JsonDeserialization(m) => "Error deserializing response: "@ + m@,
        GithubError::RepositoryOrReleaseNotFound => "Repository or release not found"@,
    }
}

/// The error that a failed request is reported as, given the status it
/// received (if any).
pub open spec fn error_for(status: Option<u16>, detail: Seq<char>, e: GithubError) -> bool {
    if status == Some(404u16) {
        e is RepositoryOrReleaseNotFound
    } else {
        e matches GithubError::Http { status: s, detail: d } && s == status && d@ == detail
    }
}

/// The HTTP status that a failed request of ureq received, if any.
pub uninterp spec fn status_of(e: ureq::Error) -> Option<u16>;

/// The kind of error that a failed request with `status` is reported as: a
/// 404 is a missing repository or release, anything else an HTTP failure that
/// keeps the status.
pub open spec fn error_kind_for(status: Option<u16>, e: GithubError) -> bool {
    if status == Some(404u16) {
        e is RepositoryOrReleaseNotFound
    } else {
        e matches GithubError::Http { status: s, .. } && s == status
    }
}

/// Relies on ureq's `Error`: `Status(code, _)` carries the HTTP status that was
/// received, `Transport(_)` none.
#[verifier::external_body]
fn status_code(error: &ureq::Error) -> (r: Option<u16>)
    ensures
        r == status_of(*error),
{
    match error {
        ureq::Error::Status(code, _) => Some(*code),
        ureq::Error::Transport(_) => None,
    }
}

/// Relies on the `Display` of ureq's `Error` for a readable description.
#[verifier::external_body]
fn error_detail(error: &ureq::Error) -> String {
    error.to_string()
}

impl GithubError {
    /// The error for a failed request that received `status` (if any): a 404
    /// is a missing repository or release, anything else an HTTP failure.
    pub fn from_parts(status: Option<u16>, detail: String) -> (r: GithubError)
        ensures
            error_for(status, detail@, r),
    {
        match status {
            Some(code) => {
                if code == 404 {
                    GithubError::RepositoryOrReleaseNotFound
                } else {
                    GithubError::Http { status, detail }
                }
            },
            None => GithubError::Http { status, detail },
        }
    }

    /// Maps a failed request of ureq to the error it is reported as.
    pub fn from(error: ureq::Error) -> (r: GithubError)
        ensures
            error_kind_for(status_of(error), r),
    {
        let status = status_code(&error);
        let detail = error_detail(&error);
        GithubError::from_parts(status, detail)
    }

    /// A human-readable description of the error.
    pub fn message(&self) -> (r: String)
        ensures
            r@ == error_message(*self),
    {
        match self {
            GithubError::Http { detail, .. } => detail.clone(),
            GithubError::JsonDeserialization(m) => {
                let mut s = String::from_str("Error deserializing response: ");
                s.append(m.as_str());
                s
            },
            GithubError::RepositoryOrReleaseNotFound => String::from_str(
                "Repository or release not found",
            ),
        }
    }
}

/// The URL of the release lookup: the latest release, or the one with `tag`.
pub fn get_release_url(repository: &Repository, tag: Option<&Tag>) -> (r: String)
    ensures
        r@ == release_url(
            repository.owner@,
            repository.repo@,
            match tag {
                Some(t) => Some(t.0@),
                None => None,
            },
        ),
{
    let mut url = String::from_str("https://api.github.com/repos/");
    url.append(repository.owner.as_str());
    url.append("/");
    url.append(repository.repo.as_str());
    url.append("/releases/");
    match tag {
        Some(t) => {
            url.append("tags/");
            url.append(t.0.as_str());
        },
        None => {
            url.append("latest");
        },
    }
    url
}

/// `r` holds the tag and the assets of `response`, in the same order.
pub open spec fn is_release_of(r: Release, response: ReleaseResponse) -> bool {
    &&& r.tag.0@ == response.tag_name@
    &&& r.assets.len() == response.assets.len()
    &&& forall|i: int|
        0 <= i < r.assets.len() ==> {
            &&& (#[trigger] r.assets[i]).name@ == response.assets[i].name@
            &&& r.assets[i].download_url@ == response.assets[i].browser_download_url@
        }
}

/// Builds the release that a decoded response describes; download URLs are
/// taken as they are.
pub fn to_release(response: ReleaseResponse) -> (r: Release)
    ensures
        is_release_of(r, response),
{
    let mut assets: Vec<Asset> = Vec::new();
    let n = response.assets.len();
    let mut i: usize = 0;
    while i < n
        invariant
            i <= n,
            n == response.assets.len(),
            assets.len() == i,
            forall|j: int|
                0 <= j < i ==> {
                    &&& (#[trigger] assets[j]).name@ == response.assets[j].name@
                    &&& assets[j].download_url@ == response.assets[j].browser_download_url@
                },
        decreases n - i,
    {
        let a = &response.assets[i];
        assets.push(Asset { name: a.name.clone(), download_url: a.browser_download_url.clone() });
        i = i + 1;
    }
    Release { tag: Tag(response.tag_name), assets }
}

/// The outcome of a release lookup, given what the request gave: a failure,
/// a body that could not be decoded, or a decoded body.
pub fn get_release(outcome: Result<Result<ReleaseResponse, String>, ureq::Error>) -> (r: Result<
    Release,
    GithubError,
>)
    ensures
        match outcome {
            Err(e) => r matches Err(g) && error_kind_for(status_of(e), g),
            Ok(Err(m)) => r matches Err(GithubError::JsonDeserialization(d)) && d@ == m@,
            Ok(Ok(response)) => r matches Ok(release) && is_release_of(release, response),
        },
{
    match outcome {
        Err(e) => Err(GithubError::from(e)),
        Ok(Err(m)) => Err(GithubError::JsonDeserialization(m)),
        Ok(Ok(response)) => Ok(to_release(response)),
    }
}

pub open spec fn is_digit(c: char) -> bool {
    '0' <= c <= '9'
}

/// The number that a string of decimal digits writes.
pub open spec fn digits_value(s: Seq<char>) -> int
    decreases s.len(),
{
    if s.len() == 0 {
        0
    } else {
        digits_value(s.drop_last()) * 10 + (s.last() as int - '0' as int)
    }
}

/// The digits of a decimal length: `s` without a leading `+`, if it has one.
pub open spec fn unsigned_digits(s: Seq<char>) -> Seq<char> {
    if s.len() > 0 && s[0] == '+' {
        s.subrange(1, s.len() as int)
    } else {
        s
    }
}

/// The value of a `Content-Length` header: an optional `+` and at least one
/// decimal digit, writing a number that fits in 64 bits.
pub open spec fn content_length_of(s: Seq<char>) -> Option<u64> {
    let d = unsigned_digits(s);
    if d.len() > 0 && (forall|i: int| 0 <= i < d.len() ==> is_digit(#[trigger] d[i]))
        && digits_value(d) <= u64::MAX {
        Some(digits_value(d) as u64)
    } else {
        None
    }
}

proof fn lemma_digits_value_grows(d: Seq<char>, i: int, j: int)
    requires
        0 <= i <= j <= d.len(),
        forall|k: int| 0 <= k < d.len() ==> is_digit(#[trigger] d[k]),
    ensures
        0 <= digits_value(d.subrange(0, i)) <= digits_value(d.subrange(0, j)),
    decreases j,
{
    if j > 0 {
        assert(d.subrange(0, j).drop_last() =~= d.subrange(0, j - 1));
        if i < j {
            lemma_digits_value_grows(d, i, j - 1);
        } else {
            lemma_digits_value_grows(d, i - 1, j - 1);
        }
    }
}

/// Reads the value of a `Content-Length` header.
pub fn parse_content_length(s: &str) -> (r: Option<u64>)
    ensures
        r == content_length_of(s@),
{
    let n = s.unicode_len();
    let mut start: usize = 0;
    if n > 0 && s.get_char(0) == '+' {
        start = 1;
    }
    let d = s.substring_char(start, n);
    assert(d@ =~= unsigned_digits(s@));
    let m = d.unicode_len();
    if m == 0 {
        return None;
    }
    let mut acc: u64 = 0;
    let mut i: usize = 0;
    while i < m
        invariant
            i <= m,
            m == d@.len(),
            d@ == unsigned_digits(s@),
            acc as int == digits_value(d@.subrange(0, i as int)),
            forall|k: int| 0 <= k < i ==> is_digit(#[trigger] d@[k]),
        decreases m - i,
    {
        let c = d.get_char(i);
        assert(d@.subrange(0, i + 1).drop_last() =~= d@.subrange(0, i as int));
        if !('0' <= c && c <= '9') {
            assert(!is_digit(d@[i as int]));
            return None;
        }
        let digit = (c as u32 - '0' as u32) as u64;
        assert(d@.subrange(0, i + 1).last() == c);
        assert(digit as int == c as int - '0' as int);
        if acc > (u64::MAX - digit) / 10 {
            assert(acc * 10 + digit > u64::MAX) by (nonlinear_arith)
                requires
                    acc > (u64::MAX - digit) / 10,
                    digit <= 9,
            ;
            let ghost v = digits_value(d@.subrange(0, i + 1));
            assert(v == acc * 10 + digit);
            proof {
                if forall|k: int| 0 <= k < m ==> is_digit(#[trigger] d@[k]) {
                    lemma_digits_value_grows(d@, i + 1, m as int);
                    assert(d@.subrange(0, m as int) =~= d@);
                }
            }
            return None;
        }
        assert(acc * 10 + digit <= u64::MAX) by (nonlinear_arith)
            requires
                acc <= (u64::MAX - digit) / 10,
                digit <= 9,
        ;
        acc = acc * 10 + digit;
        i = i + 1;
    }
    assert(d@.subrange(0, m as int) =~= d@);
    Some(acc)
}

/// The outcome of an asset download request, given what the request gave: a
/// failure, or the body's reader with its `Content-Length` header if any.
pub fn download_asset_stream<R>(outcome: Result<(R, Option<String>), ureq::Error>) -> (r: Result<
    (R, Option<u64>),
    GithubError,
>)
    ensures
        match outcome {
            Err(e) => r matches Err(g) && error_kind_for(status_of(e), g),
            Ok((reader, header)) => r matches Ok((rd, len)) && rd == reader && len == match header {
                Some(h) => content_length_of(h@),
                None => None,
            },
        },
{
    match outcome {
        Err(e) => Err(GithubError::from(e)),
        Ok((reader, header)) => {
            let len = match &header {
                Some(h) => parse_content_length(h.as_str()),
                None => None,
            };
            Ok((reader, len))
        },
    }
}

} // verus!
