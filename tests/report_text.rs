use firststep_name::report::txt_report;
use firststep_name::site::CheckResult;

#[test]
fn txt_report_layout() {
    let results = vec![
        CheckResult {
            site: "GitHub".to_string(),
            status: "Taken".to_string(),
            url: "https://github.com/alice".to_string(),
            logo_url: "https://logo.clearbit.com/github.com".to_string(),
            error: None,
        },
        CheckResult {
            site: "Foo".to_string(),
            status: "Error".to_string(),
            url: "https://foo.io/alice".to_string(),
            logo_url: "https://logo.clearbit.com/foo.io".to_string(),
            error: Some("timed out".to_string()),
        },
    ];
    let text = txt_report("alice", "2024-01-01 10:00:00", &results);
    let expected = format!(
        "Username availability report for: alice\nGenerated on: 2024-01-01 10:00:00\n{}\n\
GitHub: Taken\nURL: https://github.com/alice\nLogo: https://logo.clearbit.com/github.com\n{}\n\
Foo: Error\nURL: https://foo.io/alice\nLogo: https://logo.clearbit.com/foo.io\nError: timed out\n{}\n",
        "-".repeat(80),
        "-".repeat(40),
        "-".repeat(40)
    );
    assert_eq!(text, expected);
}

#[test]
fn txt_report_without_results() {
    let text = txt_report("bob", "now", &[]);
    assert_eq!(
        text,
        format!("Username availability report for: bob\nGenerated on: now\n{}\n", "-".repeat(80))
    );
}
