use crate::aggregation::{count_query, decimal_text, is_count_query, pr_count, pr_count_spec, window_in_range, CountResponse};
use crate::date::{decimal_digits, CivilDate};
use crate::error::MetricsError;
use crate::listing::{absorb_spec, initial_listing, opt_view, ListingView, RepoListing, ReposResponse};
use vstd::prelude::*;

verus! {

/// The column schema of the repository listing: name, then pull-request count.
pub open spec fn column_names_spec() -> Seq<Seq<char>> {
    seq!["Repository Name"@, "# of PRs"@]
}

/// The row of one repository's metric.
pub open spec fn metric_row_spec(repo: Seq<char>, count: nat) -> Seq<Seq<char>> {
    seq![repo, decimal_digits(count)]
}

pub open spec fn row_view(row: Vec<String>) -> Seq<Seq<char>> {
    row@.map_values(|s: String| s@)
}

/// Producer of one row per repository of an organisation: the repository's name and
/// the number of its pull requests created within the last `number_of_days` days.
#[derive(Debug)]
pub struct ListReposForOrg {
    pub org_name: String,
    pub number_of_days: i64,
}

/// Where a producer run stands.
#[derive(Debug, Clone, Copy, PartialEq, Eq, Structural)]
pub enum Phase {
    /// Waiting for a page of the repository listing.
    Listing,
    /// Waiting for the pull-request count of the current repository.
    Counting,
    /// Waiting for the current repository's row to be sent.
    Sending,
    /// Every row was sent.
    Finished,
    /// A fatal error ended the run.
    Failed,
}

/// What the driver of a producer run is to do next.
#[derive(Debug)]
pub enum ProducerAction {
    /// Query the page of `org_name`'s repositories after `after_cursor`.
    FetchPage { org_name: String, after_cursor: Option<String> },
    /// Query the number of pull requests that match `query_string`.
    CountPullRequests { query_string: String },
    /// Send `row` into the output channel.
    Send { row: Vec<String> },
    /// The run is over; close the channel.
    Finish,
    /// The run failed with `error`; close the channel and report it.
    Fail { error: MetricsError },
}

/// Abstract state of a producer run.
pub struct SessionView {
    pub org_name: Seq<char>,
    pub number_of_days: i64,
    pub phase: Phase,
    pub listing: ListingView,
    pub repos: Seq<Seq<char>>,
    pub next: nat,
}

/// A producer run as a state machine: each event that the driver reports yields the
/// next action. Repositories are handled one at a time, in enumeration order.
pub struct ProducerSession {
    org_name: String,
    number_of_days: i64,
    phase: Phase,
    listing: RepoListing,
    repos: Vec<String>,
    next: usize,
}

impl View for ProducerSession {
    type V = SessionView;

    closed spec fn view(&self) -> SessionView {
        SessionView {
            org_name: self.org_name@,
            number_of_days: self.number_of_days,
            phase: self.phase,
            listing: self.listing@,
            repos: self.repos@.map_values(|s: String| s@),
            next: self.next as nat,
        }
    }
}

/// `action` and `phase` are what a run does when it turns to counting the pull requests
/// of `repo`: the count query, or a failure when the window's cutoff date cannot be had.
pub open spec fn count_step(s: SessionView, repo: Seq<char>, today: CivilDate, action: ProducerAction) -> bool {
    &&& action matches ProducerAction::CountPullRequests { query_string } ==> s.phase == Phase::Counting
        && is_count_query(s.org_name, repo, today, s.number_of_days, query_string@)
    &&& action matches ProducerAction::Fail { error } ==> s.phase == Phase::Failed && error
        == MetricsError::DateOutOfRange
    &&& action is CountPullRequests || action is Fail
    &&& window_in_range(today, s.number_of_days) ==> action is CountPullRequests
}

impl ListReposForOrg {
    pub fn new(org_name: String, number_of_days: i64) -> (r: ListReposForOrg)
        ensures
            r.org_name == org_name,
            r.number_of_days == number_of_days,
    {
        ListReposForOrg { org_name, number_of_days }
    }

    /// The column schema, fixed before any row is produced.
    pub fn column_names(&self) -> (r: Vec<String>)
        ensures
            row_view(r) == column_names_spec(),
            r.len() == column_names_spec().len(),
    {
        let r = vec![String::from_str("Repository Name"), String::from_str("# of PRs")];
        assert(row_view(r) =~= column_names_spec());
        r
    }

    /// Starts the run: the first action asks for the first page of repositories.
    pub fn start(self) -> (r: (ProducerSession, ProducerAction))
        ensures
            r.0@ == (SessionView {
                org_name: self.org_name@,
                number_of_days: self.number_of_days,
                phase: Phase::Listing,
                listing: initial_listing(),
                repos: Seq::empty(),
                next: 0,
            }),
            r.1 matches ProducerAction::FetchPage { org_name, after_cursor }
                && org_name@ == self.org_name@ && after_cursor is None,
    {
        let org_name = self.org_name.clone();
        let s = ProducerSession {
            org_name: self.org_name,
            number_of_days: self.number_of_days,
            phase: Phase::Listing,
            listing: RepoListing::new(),
            repos: Vec::new(),
            next: 0,
        };
        assert(s@.repos =~= Seq::<Seq<char>>::empty());
        (s, ProducerAction::FetchPage { org_name, after_cursor: None })
    }
}

/// The row of one repository's metric: its name and its count in decimal.
pub fn metric_row(repo: &str, count: u64) -> (r: Vec<String>)
    ensures
        row_view(r) == metric_row_spec(repo@, count as nat),
        r.len() == column_names_spec().len(),
{
    let r = vec![String::from_str(repo), decimal_text(count)];
    assert(row_view(r) =~= metric_row_spec(repo@, count as nat));
    r
}

/// The defensive check of a consumer: a row must have one cell per column.
pub fn check_row(row: &Vec<String>, column_names: &Vec<String>) -> (r: Result<(), MetricsError>)
    ensures
        r is Ok <==> row.len() == column_names.len(),
        r is Err ==> r == Err::<(), MetricsError>(
            MetricsError::RowWidthMismatch { expected: column_names.len(), found: row.len() },
        ),
{
    if row.len() == column_names.len() {
        Ok(())
    } else {
        Err(MetricsError::RowWidthMismatch { expected: column_names.len(), found: row.len() })
    }
}

impl ProducerSession {
    pub fn phase(&self) -> (r: Phase)
        ensures
            r == self@.phase,
    {
        self.phase
    }

    /// Asks for the count of the repository at `next`.
    fn count_next(&mut self, today: CivilDate) -> (r: ProducerAction)
        requires
            old(self)@.next < old(self)@.repos.len(),
            today.is_valid(),
        ensures
            final(self)@ == (SessionView { phase: final(self)@.phase, ..old(self)@ }),
            count_step(final(self)@, old(self)@.repos[old(self)@.next as int], today, r),
    {
        match count_query(self.org_name.as_str(), self.repos[self.next].as_str(), today, self.number_of_days) {
            Ok(q) => {
                self.phase = Phase::Counting;
                ProducerAction::CountPullRequests { query_string: q }
            },
            Err(e) => {
                self.phase = Phase::Failed;
                ProducerAction::Fail { error: e }
            },
        }
    }

    /// Handles the payload of a page query.
    pub fn on_page(&mut self, data: Option<ReposResponse>, today: CivilDate) -> (r: ProducerAction)
        requires
            old(self)@.phase == Phase::Listing,
            today.is_valid(),
        ensures
            final(self)@.org_name == old(self)@.org_name,
            final(self)@.number_of_days == old(self)@.number_of_days,
            match data {
                None => final(self)@.phase == Phase::Failed && (r matches ProducerAction::Fail { error }
                    && error == MetricsError::MissingPayload),
                Some(d) => {
                    let l = absorb_spec(old(self)@.listing, d);
                    &&& final(self)@.listing == l
                    &&& !l.done ==> final(self)@.phase == Phase::Listing && (r matches ProducerAction::FetchPage {
                        org_name,
                        after_cursor,
                    } && org_name@ == old(self)@.org_name && opt_view(after_cursor) == l.after_cursor)
                    &&& l.done && l.names.len() == 0 ==> final(self)@.phase == Phase::Finished && r is Finish
                    &&& l.done && l.names.len() > 0 ==> final(self)@.repos == l.names && final(self)@.next
                        == 0 && count_step(final(self)@, l.names[0], today, r)
                },
            },
    {
        match self.listing.absorb(data) {
            Err(e) => {
                self.phase = Phase::Failed;
                return ProducerAction::Fail { error: e };
            },
            Ok(()) => {},
        }
        if !self.listing.is_done() {
            return ProducerAction::FetchPage {
                org_name: self.org_name.clone(),
                after_cursor: self.listing.after_cursor(),
            };
        }
        self.repos = self.listing.names();
        self.next = 0;
        if self.repos.len() == 0 {
            self.phase = Phase::Finished;
            ProducerAction::Finish
        } else {
            self.count_next(today)
        }
    }

    /// Handles the payload of the current repository's count query: the row to send,
    /// or the failure that ends the run.
    pub fn on_count(&mut self, data: Option<CountResponse>) -> (r: ProducerAction)
        requires
            old(self)@.phase == Phase::Counting,
            old(self)@.next < old(self)@.repos.len(),
        ensures
            final(self)@ == (SessionView { phase: final(self)@.phase, ..old(self)@ }),
            match pr_count_spec(data) {
                Ok(n) => final(self)@.phase == Phase::Sending && (r matches ProducerAction::Send { row }
                    && row_view(row) == metric_row_spec(old(self)@.repos[old(self)@.next as int], n as nat)),
                Err(e) => final(self)@.phase == Phase::Failed && (r matches ProducerAction::Fail { error }
                    && error == e),
            },
            r matches ProducerAction::Send { row } ==> row.len() == column_names_spec().len(),
    {
        match pr_count(data) {
            Ok(n) => {
                let row = metric_row(self.repos[self.next].as_str(), n);
                self.phase = Phase::Sending;
                ProducerAction::Send { row }
            },
            Err(e) => {
                self.phase = Phase::Failed;
                ProducerAction::Fail { error: e }
            },
        }
    }

    /// Handles the report that the current row was sent: the next repository's count
    /// query, or the end of the run after the last repository.
    pub fn on_sent(&mut self, today: CivilDate) -> (r: ProducerAction)
        requires
            old(self)@.phase == Phase::Sending,
            old(self)@.next < old(self)@.repos.len(),
            today.is_valid(),
        ensures
            final(self)@.org_name == old(self)@.org_name,
            final(self)@.number_of_days == old(self)@.number_of_days,
            final(self)@.repos == old(self)@.repos,
            final(self)@.next == old(self)@.next + 1,
            final(self)@.next == final(self)@.repos.len() ==> final(self)@.phase == Phase::Finished
                && r is Finish,
            final(self)@.next < final(self)@.repos.len() ==> count_step(
                final(self)@,
                old(self)@.repos[final(self)@.next as int],
                today,
                r,
            ),
    {
        assert(self@.repos.len() == self.repos.len());
        self.next = self.next + 1;
        if self.next == self.repos.len() {
            self.phase = Phase::Finished;
            ProducerAction::Finish
        } else {
            self.count_next(today)
        }
    }
}

} // verus!
