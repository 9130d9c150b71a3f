use vstd::prelude::*;
use crate::logo::{logo_for_url, spec_logo_for_url};

verus! {

/// Whether an ambiguous response (neither signal pair matched) counts as taken.
pub const AMBIGUOUS_IS_TAKEN: bool = false;

/// One entry of a site catalog.
pub struct SiteData {
    pub name: String,
    pub uri_check: String,
    pub e_code: u16,
    pub e_string: String,
    pub m_string: String,
    pub m_code: u16,
    pub known: Vec<String>,
    pub cat: String,
}

/// A site catalog as published: its metadata and the sites in catalog order.
pub struct SitesFile {
    pub license: Vec<String>,
    pub authors: Vec<String>,
    pub categories: Vec<String>,
    pub sites: Vec<SiteData>,
}

/// The outcome of one probe.
#[derive(Clone, Copy, Debug, PartialEq, Eq, Structural)]
pub enum ProbeStatus {
    Taken,
    Available,
    Error,
}

/// `pat` occurs somewhere in `hay`.
pub open spec fn contains_seq(hay: Seq<char>, pat: Seq<char>) -> bool {
    exists|i: int|
        0 <= i <= hay.len() - pat.len() && #[trigger] hay.subrange(i, i + pat.len()) == pat
}

/// Rule one: the "user exists" signal pair matched.
pub open spec fn exists_signal(site: SiteData, code: u16, body: Seq<char>) -> bool {
    code == site.e_code && contains_seq(body, site.e_string@)
}

/// Rule two: the "user does not exist" signal pair matched.
pub open spec fn missing_signal(site: SiteData, code: u16, body: Seq<char>) -> bool {
    code == site.m_code && contains_seq(body, site.m_string@)
}

/// The classification of a received response.
pub open spec fn spec_classify(site: SiteData, code: u16, body: Seq<char>) -> ProbeStatus {
    if exists_signal(site, code, body) {
        ProbeStatus::Taken
    } else if missing_signal(site, code, body) {
        ProbeStatus::Available
    } else if AMBIGUOUS_IS_TAKEN {
        ProbeStatus::Taken
    } else {
        ProbeStatus::Available
    }
}

/// Relies on str::contains with a `&str` pattern: true iff the pattern occurs
/// as a contiguous run of characters (the empty pattern occurs everywhere).
#[verifier::external_body]
fn str_contains(hay: &str, pat: &str) -> (r: bool)
    ensures
        r == contains_seq(hay@, pat@),
{
    hay.contains(pat)
}

/// Classifies a response by its status code and body against the site's signals.
pub fn classify(site: &SiteData, code: u16, body: &str) -> (r: ProbeStatus)
    ensures
        r == spec_classify(*site, code, body@),
        r != ProbeStatus::Error,
{
    if code == site.e_code && str_contains(body, site.e_string.as_str()) {
        ProbeStatus::Taken
    } else if code == site.m_code && str_contains(body, site.m_string.as_str()) {
        ProbeStatus::Available
    } else if AMBIGUOUS_IS_TAKEN {
        ProbeStatus::Taken
    } else {
        ProbeStatus::Available
    }
}

/// The placeholder in a check URL template that stands for the username.
pub open spec fn account_token() -> Seq<char> {
    "{account}"@
}

/// `s` with every non-overlapping occurrence of `from`, scanned left to right,
/// replaced by `to`.
pub open spec fn replaced(s: Seq<char>, from: Seq<char>, to: Seq<char>) -> Seq<char>
    decreases s.len(),
{
    if from.len() == 0 || s.len() < from.len() {
        s
    } else if s.subrange(0, from.len() as int) == from {
        to + replaced(s.subrange(from.len() as int, s.len() as int), from, to)
    } else {
        seq![s[0]] + replaced(s.drop_first(), from, to)
    }
}

/// Relies on str::replace: every non-overlapping match of a non-empty pattern,
/// leftmost first, is replaced.
#[verifier::external_body]
fn replace_all(s: &str, from: &str, to: &str) -> (r: String)
    requires
        from@.len() > 0,
    ensures
        r@ == replaced(s@, from@, to@),
{
    s.replace(from, to)
}

/// The check URL of a site with the username substituted.
pub open spec fn spec_resolved_url(site: SiteData, username: Seq<char>) -> Seq<char> {
    replaced(site.uri_check@, account_token(), username)
}

/// Substitutes the username into the site's check URL template.
pub fn resolved_url(site: &SiteData, username: &str) -> (r: String)
    ensures
        r@ == spec_resolved_url(*site, username@),
{
    let token = "{account}";
    proof {
        reveal_strlit("{account}");
    }
    replace_all(site.uri_check.as_str(), token, username)
}

/// What fetching a check URL produced: a response, or a transport failure.
pub enum FetchOutcome {
    Response { code: u16, body: String },
    Failed { detail: String },
}

/// The text shown for a status.
pub open spec fn status_text(s: ProbeStatus) -> Seq<char> {
    match s {
        ProbeStatus::Taken => "Taken"@,
        ProbeStatus::Available => "Available"@,
        ProbeStatus::Error => "Error"@,
    }
}

/// Returns the text shown for a status.
pub fn status_label(s: ProbeStatus) -> (r: String)
    ensures
        r@ == status_text(s),
{
    match s {
        ProbeStatus::Taken => "Taken".to_owned(),
        ProbeStatus::Available => "Available".to_owned(),
        ProbeStatus::Error => "Error".to_owned(),
    }
}

/// The result of probing one site.
pub struct CheckResult {
    pub site: String,
    pub status: String,
    pub url: String,
    pub logo_url: String,
    pub error: Option<String>,
}

/// The status an outcome classifies to.
pub open spec fn spec_outcome_status(site: SiteData, outcome: FetchOutcome) -> ProbeStatus {
    match outcome {
        FetchOutcome::Response { code, body } => spec_classify(site, code, body@),
        FetchOutcome::Failed { .. } => ProbeStatus::Error,
    }
}

/// `r` is the result of probing `site` for `username` with the given outcome.
pub open spec fn is_probe_result(
    r: CheckResult,
    site: SiteData,
    username: Seq<char>,
    outcome: FetchOutcome,
) -> bool {
    let url = spec_resolved_url(site, username);
    &&& r.site@ == site.name@
    &&& r.url@ == url
    &&& r.logo_url@ == spec_logo_for_url(url)
    &&& r.status@ == status_text(spec_outcome_status(site, outcome))
    &&& match outcome {
        FetchOutcome::Response { .. } => r.error is None,
        FetchOutcome::Failed { detail } => r.error matches Some(e) && e@ == detail@,
    }
}

/// Builds the result of one probe from what fetching its check URL produced:
/// a response is classified, a transport failure becomes an error result that
/// carries the failure's description.
pub fn probe_result(site: &SiteData, username: &str, outcome: FetchOutcome) -> (r: CheckResult)
    ensures
        is_probe_result(r, *site, username@, outcome),
{
    let url = resolved_url(site, username);
    let logo_url = logo_for_url(url.as_str());
    match outcome {
        FetchOutcome::Response { code, body } => {
            let st = classify(site, code, body.as_str());
            CheckResult {
                site: site.name.clone(),
                status: status_label(st),
                url,
                logo_url,
                error: None,
            }
        },
        FetchOutcome::Failed { detail } => CheckResult {
            site: site.name.clone(),
            status: status_label(ProbeStatus::Error),
            url,
            logo_url,
            error: Some(detail),
        },
    }
}

} // verus!
