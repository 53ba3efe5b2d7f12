use crate::date::{
    date_text, days_before, decimal_digits, digit_char, iso_date_text, CivilDate, MAX_YEAR,
    MIN_YEAR,
};
use crate::error::MetricsError;
use vstd::prelude::*;

verus! {

/// The data payload of a pull-request count query.
#[derive(Debug, Clone, Copy, PartialEq, Eq, Structural)]
pub struct CountResponse {
    pub issue_count: i64,
}

/// The service's search filter for the pull requests of `org/repo` created after `date`.
pub open spec fn search_filter_text(org: Seq<char>, repo: Seq<char>, date: Seq<char>) -> Seq<char> {
    "repo:"@ + org + "/"@ + repo + " is:pr created:>"@ + date
}

/// `q` is the search filter for `org/repo` over the `days` days before `today`: the
/// filter names the day `days` days before `today`, written `YYYY-MM-DD`.
pub open spec fn is_count_query(
    org: Seq<char>,
    repo: Seq<char>,
    today: CivilDate,
    days: i64,
    q: Seq<char>,
) -> bool {
    exists|c: CivilDate|
        #![trigger c.day_number()]
        c.is_valid() && c.day_number() == today.day_number() - days && q == search_filter_text(
            org,
            repo,
            iso_date_text(c),
        )
}

/// The bounds within which a time window always resolves to a cutoff date.
pub open spec fn window_in_range(today: CivilDate, days: i64) -> bool {
    &&& MIN_YEAR + 3000 <= today.year <= MAX_YEAR - 3000
    &&& -1_000_000 <= days <= 1_000_000
}

fn digit_str(d: u64) -> (r: &'static str)
    requires
        d < 10,
    ensures
        r@ == seq![digit_char(d as nat)],
{
    if d == 0 {
        proof { reveal_strlit("0"); }
        "0"
    } else if d == 1 {
        proof { reveal_strlit("1"); }
        "1"
    } else if d == 2 {
        proof { reveal_strlit("2"); }
        "2"
    } else if d == 3 {
        proof { reveal_strlit("3"); }
        "3"
    } else if d == 4 {
        proof { reveal_strlit("4"); }
        "4"
    } else if d == 5 {
        proof { reveal_strlit("5"); }
        "5"
    } else if d == 6 {
        proof { reveal_strlit("6"); }
        "6"
    } else if d == 7 {
        proof { reveal_strlit("7"); }
        "7"
    } else if d == 8 {
        proof { reveal_strlit("8"); }
        "8"
    } else {
        proof { reveal_strlit("9"); }
        "9"
    }
}

/// `n` written in decimal.
pub fn decimal_text(n: u64) -> (r: String)
    ensures
        r@ == decimal_digits(n as nat),
    decreases n,
{
    if n < 10 {
        String::from_str(digit_str(n))
    } else {
        let mut s = decimal_text(n / 10);
        s.append(digit_str(n % 10));
        s
    }
}

/// The search filter `repo:<org>/<repo> is:pr created:><cutoff>`.
pub fn search_filter(org: &str, repo: &str, cutoff: &str) -> (r: String)
    ensures
        r@ == search_filter_text(org@, repo@, cutoff@),
{
    let mut q = String::from_str("repo:");
    q.append(org);
    q.append("/");
    q.append(repo);
    q.append(" is:pr created:>");
    q.append(cutoff);
    q
}

/// The day `days` days before `today`.
pub fn cutoff_date(today: CivilDate, days: i64) -> (r: Result<CivilDate, MetricsError>)
    requires
        today.is_valid(),
    ensures
        r matches Ok(c) ==> c.is_valid() && c.day_number() == today.day_number() - days,
        r matches Err(e) ==> e == MetricsError::DateOutOfRange,
        window_in_range(today, days) ==> r is Ok,
{
    match days_before(today, days) {
        Some(c) => Ok(c),
        None => Err(MetricsError::DateOutOfRange),
    }
}

/// The search filter that counts the pull requests of `org/repo` created within the
/// `days` days before `today`.
pub fn count_query(org: &str, repo: &str, today: CivilDate, days: i64) -> (r: Result<
    String,
    MetricsError,
>)
    requires
        today.is_valid(),
    ensures
        r matches Ok(q) ==> is_count_query(org@, repo@, today, days, q@),
        r matches Err(e) ==> e == MetricsError::DateOutOfRange,
        window_in_range(today, days) ==> r is Ok,
{
    let c = cutoff_date(today, days)?;
    let text = date_text(c);
    let q = search_filter(org, repo, text.as_str());
    assert(c.day_number() == today.day_number() - days);
    Ok(q)
}

/// The count carried by a count query's payload, or why there is none.
pub open spec fn pr_count_spec(data: Option<CountResponse>) -> Result<u64, MetricsError> {
    match data {
        None => Err(MetricsError::MissingPayload),
        Some(d) => if d.issue_count < 0 {
            Err(MetricsError::NegativeCount)
        } else {
            Ok(d.issue_count as u64)
        },
    }
}

/// The pull-request count carried by a count query's payload. An absent payload is
/// fatal, and so is a negative count.
pub fn pr_count(data: Option<CountResponse>) -> (r: Result<u64, MetricsError>)
    ensures
        r == pr_count_spec(data),
{
    match data {
        None => Err(MetricsError::MissingPayload),
        Some(d) => if d.issue_count < 0 {
            Err(MetricsError::NegativeCount)
        } else {
            Ok(d.issue_count as u64)
        },
    }
}

} // verus!
