use firststep_name::engine::{ProgressUpdate, RunFinished};
use firststep_name::events::{encode_finished, encode_progress};

#[test]
fn progress_event_json_fields_in_order() {
    let u = ProgressUpdate {
        site: "GitHub".to_string(),
        status: "Taken".to_string(),
        url: "https://github.com/alice".to_string(),
        logo_url: "https://logo.clearbit.com/github.com".to_string(),
        error: None,
        is_taken: true,
        completed: 3,
        total: 12,
    };
    assert_eq!(
        encode_progress(&u),
        "{\"site\":\"GitHub\",\"status\":\"Taken\",\"url\":\"https://github.com/alice\",\
\"logo_url\":\"https://logo.clearbit.com/github.com\",\"error\":null,\"is_taken\":true,\
\"completed\":3,\"total\":12}"
    );
}

#[test]
fn progress_event_json_escapes_error_text() {
    let u = ProgressUpdate {
        site: "A".to_string(),
        status: "Error".to_string(),
        url: "u".to_string(),
        logo_url: "l".to_string(),
        error: Some("bad \"quote\"\n".to_string()),
        is_taken: false,
        completed: 10,
        total: 10,
    };
    assert_eq!(
        encode_progress(&u),
        "{\"site\":\"A\",\"status\":\"Error\",\"url\":\"u\",\"logo_url\":\"l\",\
\"error\":\"bad \\\"quote\\\"\\n\",\"is_taken\":false,\"completed\":10,\"total\":10}"
    );
}

#[test]
fn finished_event_json() {
    assert_eq!(
        encode_finished(&RunFinished { total: 250 }),
        "{\"completed\":true,\"total\":250}"
    );
    assert_eq!(
        encode_finished(&RunFinished { total: 0 }),
        "{\"completed\":true,\"total\":0}"
    );
}
