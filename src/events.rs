use vstd::prelude::*;
use crate::engine::{ProgressUpdate, RunFinished};

verus! {

/// The JSON string literal that serde_json writes for a text.
pub uninterp spec fn json_string(s: Seq<char>) -> Seq<char>;

/// Relies on serde_json::to_string on a `str`: the quoted, escaped JSON
/// string of the text. Serializing a `str` only writes into a `Vec`, so it
/// does not fail.
#[verifier::external_body]
fn quote_json(s: &str) -> (r: Option<String>)
    ensures
        r is Some,
        r matches Some(t) ==> t@ == json_string(s@),
{
    serde_json::to_string(s).ok()
}

pub open spec fn digit_char(d: int) -> char {
    seq!['0', '1', '2', '3', '4', '5', '6', '7', '8', '9'][d]
}

/// Decimal digits of a number, without leading zeros.
pub open spec fn decimal_text(n: nat) -> Seq<char>
    decreases n,
{
    if n < 10 {
        seq![digit_char(n as int)]
    } else {
        decimal_text(n / 10).push(digit_char((n % 10) as int))
    }
}

/// Relies on `usize::to_string`: the decimal digits, without sign or padding.
#[verifier::external_body]
fn decimal(n: usize) -> (r: String)
    ensures
        r@ == decimal_text(n as nat),
{
    n.to_string()
}

pub open spec fn bool_text(b: bool) -> Seq<char> {
    if b {
        "true"@
    } else {
        "false"@
    }
}

/// The JSON object of a per-probe progress event, fields in declaration order.
pub open spec fn progress_json(u: ProgressUpdate) -> Seq<char> {
    "{\"site\":"@ + json_string(u.site@) + ",\"status\":"@ + json_string(u.status@)
        + ",\"url\":"@ + json_string(u.url@) + ",\"logo_url\":"@ + json_string(u.logo_url@)
        + ",\"error\":"@ + match u.error {
        Some(e) => json_string(e@),
        None => "null"@,
    } + ",\"is_taken\":"@ + bool_text(u.is_taken) + ",\"completed\":"@ + decimal_text(
        u.completed as nat,
    ) + ",\"total\":"@ + decimal_text(u.total as nat) + "}"@
}

/// The JSON object of the terminal event, where `completed` is a boolean.
pub open spec fn finished_json(f: RunFinished) -> Seq<char> {
    "{\"completed\":true,\"total\":"@ + decimal_text(f.total as nat) + "}"@
}

/// Appends the quoted form of `s`.
fn push_quoted(out: &mut String, s: &str)
    ensures
        final(out)@ == old(out)@ + json_string(s@),
{
    let q = quote_json(s).unwrap();
    out.append(q.as_str());
}

/// Encodes a progress event as one JSON message.
pub fn encode_progress(u: &ProgressUpdate) -> (r: String)
    ensures
        r@ == progress_json(*u),
{
    let mut out = String::new();
    out.append("{\"site\":");
    push_quoted(&mut out, u.site.as_str());
    out.append(",\"status\":");
    push_quoted(&mut out, u.status.as_str());
    out.append(",\"url\":");
    push_quoted(&mut out, u.url.as_str());
    out.append(",\"logo_url\":");
    push_quoted(&mut out, u.logo_url.as_str());
    out.append(",\"error\":");
    match &u.error {
        Some(e) => {
            push_quoted(&mut out, e.as_str());
        },
        None => {
            out.append("null");
        },
    }
    out.append(",\"is_taken\":");
    if u.is_taken {
        out.append("true");
    } else {
        out.append("false");
    }
    out.append(",\"completed\":");
    out.append(decimal(u.completed).as_str());
    out.append(",\"total\":");
    out.append(decimal(u.total).as_str());
    out.append("}");
    assert(out@ =~= progress_json(*u));
    out
}

/// Encodes the terminal event as one JSON message.
pub fn encode_finished(f: &RunFinished) -> (r: String)
    ensures
        r@ == finished_json(*f),
{
    let mut out = String::new();
    out.append("{\"completed\":true,\"total\":");
    out.append(decimal(f.total).as_str());
    out.append("}");
    assert(out@ =~= finished_json(*f));
    out
}

} // verus!
