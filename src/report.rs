use vstd::prelude::*;
use crate::site::CheckResult;

verus! {

pub open spec fn long_rule() -> Seq<char> {
    "--------------------------------------------------------------------------------"@
}

pub open spec fn short_rule() -> Seq<char> {
    "----------------------------------------"@
}

pub open spec fn newline() -> Seq<char> {
    "\n"@
}

/// The lines of the text report for one result.
pub open spec fn result_block(r: CheckResult) -> Seq<char> {
    r.site@ + ": "@ + r.status@ + newline() + "URL: "@ + r.url@ + newline() + "Logo: "@
        + r.logo_url@ + newline() + match r.error {
        Some(e) => "Error: "@ + e@ + newline(),
        None => Seq::empty(),
    } + short_rule() + newline()
}

/// The blocks of all results, in order.
pub open spec fn result_blocks(rs: Seq<CheckResult>) -> Seq<char>
    decreases rs.len(),
{
    if rs.len() == 0 {
        Seq::empty()
    } else {
        result_blocks(rs.drop_last()) + result_block(rs.last())
    }
}

/// The text report: a header naming the user and the time, then one block per result.
pub open spec fn spec_txt_report(
    username: Seq<char>,
    generated_at: Seq<char>,
    rs: Seq<CheckResult>,
) -> Seq<char> {
    "Username availability report for: "@ + username + newline() + "Generated on: "@
        + generated_at + newline() + long_rule() + newline() + result_blocks(rs)
}

fn push_result_block(out: &mut String, r: &CheckResult)
    ensures
        final(out)@ == old(out)@ + result_block(*r),
{
    out.append(r.site.as_str());
    out.append(": ");
    out.append(r.status.as_str());
    out.append("\n");
    out.append("URL: ");
    out.append(r.url.as_str());
    out.append("\n");
    out.append("Logo: ");
    out.append(r.logo_url.as_str());
    out.append("\n");
    match &r.error {
        Some(e) => {
            out.append("Error: ");
            out.append(e.as_str());
            out.append("\n");
        },
        None => {},
    }
    out.append("----------------------------------------");
    out.append("\n");
    assert(final(out)@ =~= old(out)@ + result_block(*r));
}

/// Builds the text report for `username`, generated at `generated_at`.
pub fn txt_report(username: &str, generated_at: &str, results: &[CheckResult]) -> (r: String)
    ensures
        r@ == spec_txt_report(username@, generated_at@, results@),
{
    let mut out = String::new();
    out.append("Username availability report for: ");
    out.append(username);
    out.append("\n");
    out.append("Generated on: ");
    out.append(generated_at);
    out.append("\n");
    out.append("--------------------------------------------------------------------------------");
    out.append("\n");
    let ghost header = out@;
    let mut i: usize = 0;
    while i < results.len()
        invariant
            i <= results@.len(),
            out@ == header + result_blocks(results@.subrange(0, i as int)),
        decreases results@.len() - i,
    {
        push_result_block(&mut out, &results[i]);
        proof {
            let s = results@.subrange(0, i + 1);
            assert(s.drop_last() =~= results@.subrange(0, i as int));
        }
        i = i + 1;
    }
    assert(results@.subrange(0, results@.len() as int) =~= results@);
    assert(out@ =~= spec_txt_report(username@, generated_at@, results@));
    out
}

} // verus!
