use vstd::prelude::*;

verus! {

/// The host that `url::Url` parses out of `s`, if `s` parses and has a host.
pub uninterp spec fn url_host(s: Seq<char>) -> Option<Seq<char>>;

/// Relies on url::Url::parse and url::Url::host_str: the host of `s` when it
/// parses as an absolute URL with a host, a function of the text alone.
#[verifier::external_body]
fn host_of_url(s: &str) -> (r: Option<String>)
    ensures
        r matches Some(h) ==> url_host(s@) == Some(h@),
        r is None ==> url_host(s@) is None,
{
    match url::Url::parse(s) {
        Ok(u) => u.host_str().map(|h| h.to_string()),
        Err(_) => None,
    }
}

/// Index of the last '.' in `h` before position `end`, or -1.
pub open spec fn last_dot_before(h: Seq<char>, end: int) -> int
    decreases end,
{
    if end <= 0 {
        -1
    } else if h[end - 1] == '.' {
        end - 1
    } else {
        last_dot_before(h, end - 1)
    }
}

/// The last two dot-separated labels of a host, or the whole host if it has one label.
pub open spec fn registrable_domain(h: Seq<char>) -> Seq<char> {
    let j = last_dot_before(h, h.len() as int);
    if j < 0 {
        h
    } else {
        h.subrange(last_dot_before(h, j) + 1, h.len() as int)
    }
}

/// The domain derived from a URL, if it has a host.
pub open spec fn spec_extract_domain(url: Seq<char>) -> Option<Seq<char>> {
    match url_host(url) {
        Some(h) => Some(registrable_domain(h)),
        None => None,
    }
}

pub open spec fn telegram_domain() -> Seq<char> {
    "t.me"@
}

pub open spec fn giters_domain() -> Seq<char> {
    "giters.com"@
}

pub open spec fn kofi_domain() -> Seq<char> {
    "ko-fi.com"@
}

pub open spec fn telegram_logo() -> Seq<char> {
    "https://logo.clearbit.com/telegram.org"@
}

pub open spec fn giters_logo() -> Seq<char> {
    "https://giters.com/images/favicon.svg"@
}

pub open spec fn kofi_logo() -> Seq<char> {
    "https://storage.ko-fi.com/cdn/brandasset/kofi_s_logo_nolabel.png"@
}

pub open spec fn logo_cdn_prefix() -> Seq<char> {
    "https://logo.clearbit.com/"@
}

/// The logo URL for a domain: one of the fixed overrides, else the logo CDN.
pub open spec fn spec_site_logo(domain: Seq<char>) -> Seq<char> {
    if domain == telegram_domain() {
        telegram_logo()
    } else if domain == giters_domain() {
        giters_logo()
    } else if domain == kofi_domain() {
        kofi_logo()
    } else {
        logo_cdn_prefix() + domain
    }
}

/// The domain used when a URL yields none.
pub open spec fn unknown_domain() -> Seq<char> {
    "unknown.com"@
}

/// The logo URL derived from a resolved check URL.
pub open spec fn spec_logo_for_url(url: Seq<char>) -> Seq<char> {
    match spec_extract_domain(url) {
        Some(d) => spec_site_logo(d),
        None => spec_site_logo(unknown_domain()),
    }
}

/// Returns the logo URL for a domain.
pub fn get_site_logo(domain_name: &str) -> (r: String)
    ensures
        r@ == spec_site_logo(domain_name@),
{
    let d = domain_name.to_owned();
    if d == "t.me".to_owned() {
        "https://logo.clearbit.com/telegram.org".to_owned()
    } else if d == "giters.com".to_owned() {
        "https://giters.com/images/favicon.svg".to_owned()
    } else if d == "ko-fi.com".to_owned() {
        "https://storage.ko-fi.com/cdn/brandasset/kofi_s_logo_nolabel.png".to_owned()
    } else {
        let prefix = "https://logo.clearbit.com/".to_owned();
        prefix.concat(domain_name)
    }
}

/// Keeps the last two dot-separated labels of a host.
pub fn registrable_part(host: &str) -> (r: String)
    ensures
        r@ == registrable_domain(host@),
{
    let n = host.unicode_len();
    let mut j: usize = n;
    while j > 0 && host.get_char(j - 1) != '.'
        invariant
            j <= n,
            n == host@.len(),
            last_dot_before(host@, n as int) == last_dot_before(host@, j as int),
        decreases j,
    {
        j = j - 1;
    }
    if j == 0 {
        return host.to_owned();
    }
    let dot = j - 1;
    let mut i: usize = dot;
    while i > 0 && host.get_char(i - 1) != '.'
        invariant
            i <= dot,
            dot < n,
            n == host@.len(),
            last_dot_before(host@, dot as int) == last_dot_before(host@, i as int),
        decreases i,
    {
        i = i - 1;
    }
    host.substring_char(i, n).to_owned()
}

/// The registrable domain of a URL's host: the last two labels of the host,
/// or the host itself when it has a single label; `None` without a host.
pub fn extract_domain(url_str: &str) -> (r: Option<String>)
    ensures
        r matches Some(d) ==> spec_extract_domain(url_str@) == Some(d@),
        r is None ==> spec_extract_domain(url_str@) is None,
{
    match host_of_url(url_str) {
        Some(h) => Some(registrable_part(h.as_str())),
        None => None,
    }
}

/// The logo URL for a resolved check URL, through its registrable domain.
pub fn logo_for_url(url: &str) -> (r: String)
    ensures
        r@ == spec_logo_for_url(url@),
{
    match extract_domain(url) {
        Some(d) => get_site_logo(d.as_str()),
        None => get_site_logo("unknown.com"),
    }
}

} // verus!
