//! The texts a recent-project card shows: when it was last opened and, for
//! a git project behind its upstream, how many updates wait; and how the
//! checks for upstream updates that fill those in are chosen and read.

use vstd::prelude::*;
use crate::text::{chars_of, count_noun, counted_noun, string_from_chars, vec_append, vec_append_str};
use crate::types::GitFetchStatus;
use crate::recent_projects::{RecentProjectsList, RecentProjectView};
use crate::relative_time::{format_timestamp, rfc3339_valid, rfc3339_instant, relative_label, seconds_between,
    instant_nanos, clock_nanos, ClockReading};

verus! {

/// The number of updates a git project is behind, when the card shows them:
/// only for git projects whose fetch found updates.
pub open spec fn pending_updates(is_git: bool, status: GitFetchStatus) -> Option<usize> {
    if is_git {
        match status {
            GitFetchStatus::UpdatesAvailable(n) => Some(n),
            _ => None,
        }
    } else {
        None
    }
}

/// The badge of a card whose project is behind: `"<n> update(s) available"`.
pub fn updates_badge(is_git: bool, status: &GitFetchStatus) -> (r: Option<String>)
    ensures
        r is Some <==> pending_updates(is_git, *status) is Some,
        r matches Some(s) ==> s@ == counted_noun(pending_updates(is_git, *status)->0 as nat, "update"@)
            + " available"@,
{
    if !is_git {
        return None;
    }
    match status {
        GitFetchStatus::UpdatesAvailable(n) => {
            let mut v = count_noun(*n as u64, "update");
            vec_append_str(&mut v, " available");
            Some(string_from_chars(&v))
        },
        _ => None,
    }
}

/// The label of the button that pulls waiting updates: `"Pull <n> update(s)"`.
pub fn pull_updates_label(is_git: bool, status: &GitFetchStatus) -> (r: Option<String>)
    ensures
        r is Some <==> pending_updates(is_git, *status) is Some,
        r matches Some(s) ==> s@ == "Pull "@ + counted_noun(pending_updates(is_git, *status)->0 as nat, "update"@),
{
    if !is_git {
        return None;
    }
    match status {
        GitFetchStatus::UpdatesAvailable(n) => {
            let mut v = chars_of("Pull ");
            let c = count_noun(*n as u64, "update");
            vec_append(&mut v, &c);
            Some(string_from_chars(&v))
        },
        _ => None,
    }
}

/// When the project was last opened: `Never opened` without a timestamp,
/// else the relative label of the timestamp (`Unknown` when it does not
/// parse).
pub fn last_opened_label(last_opened: Option<&str>) -> (r: String)
    ensures
        last_opened is None ==> r@ == "Never opened"@,
        last_opened matches Some(ts) ==> {
            &&& !rfc3339_valid(ts@) ==> r@ == "Unknown"@
            &&& rfc3339_valid(ts@) ==> exists|now: ClockReading|
                r@ == relative_label(seconds_between(instant_nanos(rfc3339_instant(ts@)->0), clock_nanos(now)))
        },
{
    match last_opened {
        Some(ts) => format_timestamp(ts),
        None => String::from_str("Never opened"),
    }
}

/// The positions of the git projects, in list order: the projects checked
/// for upstream updates.
pub open spec fn git_positions(ps: Seq<RecentProjectView>) -> Seq<usize>
    decreases ps.len(),
{
    if ps.len() == 0 {
        Seq::empty()
    } else if ps.last().is_git {
        git_positions(ps.drop_last()).push((ps.len() - 1) as usize)
    } else {
        git_positions(ps.drop_last())
    }
}

/// The recent projects to check for upstream updates: the git ones, by
/// position in the list.
pub fn projects_to_check(list: &RecentProjectsList) -> (r: Vec<usize>)
    ensures
        r@ == git_positions(list@),
{
    let mut r: Vec<usize> = Vec::new();
    let mut i: usize = 0;
    while i < list.projects.len()
        invariant
            i <= list.projects@.len(),
            list@.len() == list.projects@.len(),
            forall|k: int| 0 <= k < list@.len() ==> list@[k] == (#[trigger] list.projects@[k])@,
            r@ == git_positions(list@.take(i as int)),
        decreases list.projects@.len() - i,
    {
        assert(list@.take(i + 1).drop_last() =~= list@.take(i as int));
        if list.projects[i].is_git {
            r.push(i);
        }
        i = i + 1;
    }
    assert(list@.take(list@.len() as int) =~= list@);
    r
}

/// How checking one project for upstream updates ended.
#[derive(Clone, Debug)]
pub enum FetchOutcome {
    /// The check ran: the number of upstream commits not yet pulled.
    Behind(usize),
    /// The check failed, for this reason.
    Failed(String),
    /// The worker running the check died.
    Crashed,
}

/// The status a finished check leaves on its project: up to date when
/// nothing is behind, else the number of updates, or the error.
pub fn fetch_status_of(outcome: FetchOutcome) -> (r: GitFetchStatus)
    ensures
        outcome matches FetchOutcome::Behind(n) ==> (if n == 0 {
            r is UpToDate
        } else {
            r matches GitFetchStatus::UpdatesAvailable(m) && m == n
        }),
        outcome matches FetchOutcome::Failed(e) ==> r == GitFetchStatus::Error(e),
        outcome is Crashed ==> (r matches GitFetchStatus::Error(e) && e@ == "Thread panicked"@),
{
    match outcome {
        FetchOutcome::Behind(n) => if n == 0 {
            GitFetchStatus::UpToDate
        } else {
            GitFetchStatus::UpdatesAvailable(n)
        },
        FetchOutcome::Failed(e) => GitFetchStatus::Error(e),
        FetchOutcome::Crashed => GitFetchStatus::Error(String::from_str("Thread panicked")),
    }
}

} // verus!
