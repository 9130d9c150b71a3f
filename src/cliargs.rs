use vstd::prelude::*;

verus! {

/// Command-line settings of a run.
pub struct CliArgs {
    /// Username to check.
    pub username: String,
    /// JSON file with site data.
    pub file: String,
    /// Output format: txt, json or web.
    pub output: String,
    /// Download the latest sites data before checking.
    pub download: bool,
    /// Parallelism limit, 1 to 99.
    pub threads: usize,
}

pub open spec fn is_decimal_digit(c: char) -> bool {
    '0' <= c <= '9'
}

/// Value of a run of decimal digits, most significant first.
pub open spec fn decimal_value(s: Seq<char>) -> int
    decreases s.len(),
{
    if s.len() == 0 {
        0
    } else {
        decimal_value(s.drop_last()) * 10 + (s.last() as int - '0' as int)
    }
}

/// The digits of an unsigned number: the text without one leading '+'.
pub open spec fn unsigned_digits(s: Seq<char>) -> Seq<char> {
    if s.len() > 0 && s[0] == '+' {
        s.drop_first()
    } else {
        s
    }
}

/// The `usize` a text denotes: an optional '+' then one or more decimal
/// digits whose value fits.
pub open spec fn spec_parse_usize(s: Seq<char>) -> Option<int> {
    let d = unsigned_digits(s);
    if d.len() > 0 && (forall|i: int| 0 <= i < d.len() ==> is_decimal_digit(#[trigger] d[i]))
        && decimal_value(d) <= usize::MAX {
        Some(decimal_value(d))
    } else {
        None
    }
}

/// Relies on `str::parse::<usize>`: one optional '+', then ASCII decimal
/// digits, refused when empty or when the value overflows.
#[verifier::external_body]
fn parse_usize(s: &str) -> (r: Option<usize>)
    ensures
        r matches Some(n) ==> spec_parse_usize(s@) == Some(n as int),
        r is None ==> spec_parse_usize(s@) is None,
{
    s.parse::<usize>().ok()
}

pub open spec fn not_a_number_message() -> Seq<char> {
    "Thread count must be a positive number"@
}

pub open spec fn out_of_range_message() -> Seq<char> {
    "Thread count must be between 1 and 99"@
}

/// Reads a parallelism limit, which must be a number from 1 to 99.
pub fn thread_count_parser(s: &str) -> (r: Result<usize, String>)
    ensures
        spec_parse_usize(s@) is None ==> (r matches Err(e) && e@ == not_a_number_message()),
        spec_parse_usize(s@) matches Some(n) ==> if 1 <= n < 100 {
            r == Ok::<usize, String>(n as usize)
        } else {
            r matches Err(e) && e@ == out_of_range_message()
        },
{
    let thread_count = match parse_usize(s) {
        Some(n) => n,
        None => {
            return Err("Thread count must be a positive number".to_owned());
        },
    };
    if thread_count < 1 || thread_count >= 100 {
        return Err("Thread count must be between 1 and 99".to_owned());
    }
    Ok(thread_count)
}

} // verus!
