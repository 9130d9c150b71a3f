use firststep_name::cliargs::thread_count_parser;
use firststep_name::logo::{extract_domain, get_site_logo, logo_for_url, registrable_part};
use firststep_name::site::{
    classify, probe_result, resolved_url, status_label, FetchOutcome, ProbeStatus, SiteData,
};

fn site(e_code: u16, e_string: &str, m_code: u16, m_string: &str) -> SiteData {
    SiteData {
        name: "Example".to_string(),
        uri_check: "https://sub.example.co.uk/{account}".to_string(),
        e_code,
        e_string: e_string.to_string(),
        m_string: m_string.to_string(),
        m_code,
        known: vec!["alice".to_string()],
        cat: "social".to_string(),
    }
}

#[test]
fn classify_no_match_on_rule_one_is_available() {
    let s = site(200, "does not exist", 404, "missing");
    assert_eq!(classify(&s, 200, "User not found"), ProbeStatus::Available);
}

#[test]
fn classify_exists_signal_is_taken() {
    let s = site(200, "profile of", 404, "missing");
    assert_eq!(classify(&s, 200, "profile of alice"), ProbeStatus::Taken);
}

#[test]
fn classify_missing_signal_is_available() {
    let s = site(200, "profile of", 404, "");
    assert_eq!(classify(&s, 404, ""), ProbeStatus::Available);
}

#[test]
fn classify_code_mismatch_is_available() {
    let s = site(200, "profile of", 404, "missing");
    assert_eq!(classify(&s, 500, "profile of alice"), ProbeStatus::Available);
}

#[test]
fn classify_is_deterministic() {
    let s = site(200, "profile of", 404, "missing");
    let a = classify(&s, 200, "the profile of bob");
    let b = classify(&s, 200, "the profile of bob");
    assert_eq!(a, b);
    assert_eq!(a, ProbeStatus::Taken);
}

#[test]
fn transport_failure_gives_error_with_detail() {
    let s = site(200, "profile of", 404, "missing");
    let r = probe_result(
        &s,
        "alice",
        FetchOutcome::Failed { detail: "dns error: no such host".to_string() },
    );
    assert_eq!(r.status, "Error");
    assert_eq!(r.error.as_deref(), Some("dns error: no such host"));
    assert!(!r.error.unwrap().is_empty());
    assert_eq!(r.url, "https://sub.example.co.uk/alice");
    assert_eq!(r.site, "Example");
}

#[test]
fn response_result_has_url_logo_and_status() {
    let s = site(200, "profile of", 404, "missing");
    let r = probe_result(
        &s,
        "alice",
        FetchOutcome::Response { code: 200, body: "profile of alice".to_string() },
    );
    assert_eq!(r.status, "Taken");
    assert_eq!(r.url, "https://sub.example.co.uk/alice");
    assert_eq!(r.logo_url, "https://logo.clearbit.com/co.uk");
    assert!(r.error.is_none());
}

#[test]
fn resolved_url_substitutes_every_placeholder() {
    let mut s = site(200, "x", 404, "y");
    s.uri_check = "https://x.io/{account}?u={account}".to_string();
    assert_eq!(resolved_url(&s, "bob"), "https://x.io/bob?u=bob");
}

#[test]
fn extract_domain_keeps_two_labels() {
    assert_eq!(
        extract_domain("https://sub.example.co.uk/alice"),
        Some("co.uk".to_string())
    );
    assert_eq!(
        extract_domain("https://github.com/alice"),
        Some("github.com".to_string())
    );
}

#[test]
fn extract_domain_single_label_host() {
    assert_eq!(extract_domain("http://localhost/alice"), Some("localhost".to_string()));
}

#[test]
fn extract_domain_without_host() {
    assert_eq!(extract_domain("not a url"), None);
    assert_eq!(extract_domain("mailto:alice@example.com"), None);
}

#[test]
fn registrable_part_cases() {
    assert_eq!(registrable_part("a.b.c.d"), "c.d");
    assert_eq!(registrable_part("host"), "host");
    assert_eq!(registrable_part("x.y"), "x.y");
}

#[test]
fn site_logo_overrides() {
    assert_eq!(get_site_logo("t.me"), "https://logo.clearbit.com/telegram.org");
    assert_eq!(get_site_logo("giters.com"), "https://giters.com/images/favicon.svg");
    assert_eq!(
        get_site_logo("ko-fi.com"),
        "https://storage.ko-fi.com/cdn/brandasset/kofi_s_logo_nolabel.png"
    );
}

#[test]
fn site_logo_fallback() {
    assert_eq!(
        get_site_logo("randomsite.io"),
        "https://logo.clearbit.com/randomsite.io"
    );
}

#[test]
fn logo_for_url_without_host_uses_unknown_domain() {
    assert_eq!(logo_for_url("nonsense"), "https://logo.clearbit.com/unknown.com");
    assert_eq!(logo_for_url("https://t.me/alice"), "https://logo.clearbit.com/telegram.org");
}

#[test]
fn status_labels() {
    assert_eq!(status_label(ProbeStatus::Taken), "Taken");
    assert_eq!(status_label(ProbeStatus::Available), "Available");
    assert_eq!(status_label(ProbeStatus::Error), "Error");
}

#[test]
fn thread_count_accepts_range() {
    assert_eq!(thread_count_parser("10"), Ok(10));
    assert_eq!(thread_count_parser("1"), Ok(1));
    assert_eq!(thread_count_parser("99"), Ok(99));
    assert_eq!(thread_count_parser("+7"), Ok(7));
}

#[test]
fn thread_count_rejects_out_of_range() {
    let msg = "Thread count must be between 1 and 99".to_string();
    assert_eq!(thread_count_parser("0"), Err(msg.clone()));
    assert_eq!(thread_count_parser("100"), Err(msg));
}

#[test]
fn thread_count_rejects_non_numbers() {
    let msg = "Thread count must be a positive number".to_string();
    assert_eq!(thread_count_parser("abc"), Err(msg.clone()));
    assert_eq!(thread_count_parser(""), Err(msg.clone()));
    assert_eq!(thread_count_parser("-3"), Err(msg.clone()));
    assert_eq!(thread_count_parser("99999999999999999999999"), Err(msg));
}
