//! One work-log submission: what is sent to the tracker, and what came of it.

use crate::cache::{as_map, distinct_ids, found, lemma_place_unique, lemma_put_new, Pairs};
use crate::timestamp::{ends_normalized, reparse, reparsed, ParseError};
use crate::wire::{members, new_object, set_text};
use json::JsonValue;
use vstd::prelude::*;

verus! {

/// How often the tracker is tried before a submission counts as failed.
pub const ATTEMPTS: u32 = 2;

/// A request to log work, ready to be posted.
#[derive(Debug, PartialEq)]
pub struct WorkLogRequest {
    /// Where to post it, below the tracker's root.
    pub path: String,
    /// What to post: `timeSpent`, `comment`, and `started` where there is a
    /// start time.
    pub body: JsonValue,
    /// How often to try.
    pub attempts: u32,
}

/// A `WorkLogRequest` as plain values: of the body, its members.
pub struct WorkLogRequestView {
    pub path: Seq<char>,
    pub body: Pairs,
    pub attempts: u32,
}

impl View for WorkLogRequest {
    type V = WorkLogRequestView;

    open spec fn view(&self) -> WorkLogRequestView {
        WorkLogRequestView {
            path: self.path@,
            body: members(self.body),
            attempts: self.attempts,
        }
    }
}

/// Where work on `ticket` is logged: `issue/{ticket}/worklog`.
pub open spec fn worklog_path(ticket: Seq<char>) -> Seq<char> {
    "issue/"@ + ticket + "/worklog"@
}

/// The members of the body that logs `time_spent`: the time spent as the
/// user wrote it, the comment, and the start time if there is one. Without
/// one the body has no member for it, not an empty one.
pub open spec fn body_members(
    time_spent: Seq<char>,
    comment: Seq<char>,
    started: Option<Seq<char>>,
) -> Pairs {
    let always = seq![("timeSpent"@, time_spent), ("comment"@, comment)];
    match started {
        Some(text) => always.push(("started"@, text)),
        None => always,
    }
}

/// The comment that is sent: empty where none was given.
pub open spec fn comment_sent(comment: Option<Seq<char>>) -> Seq<char> {
    match comment {
        Some(text) => text,
        None => Seq::empty(),
    }
}

/// The request that logs `time_spent` on `ticket`.
pub open spec fn request_for(
    ticket: Seq<char>,
    time_spent: Seq<char>,
    comment: Option<Seq<char>>,
    started: Option<Seq<char>>,
) -> WorkLogRequestView {
    WorkLogRequestView {
        path: worklog_path(ticket),
        body: body_members(time_spent, comment_sent(comment), started),
        attempts: ATTEMPTS,
    }
}

/// What `log_work` returns for what reading the start time gave, if one was
/// given.
pub open spec fn logged(
    ticket: Seq<char>,
    time_spent: Seq<char>,
    comment: Option<Seq<char>>,
    start_time: Option<Result<Seq<char>, ParseError>>,
) -> Result<WorkLogRequestView, ParseError> {
    match start_time {
        None => Ok(request_for(ticket, time_spent, comment, None)),
        Some(Ok(text)) => Ok(request_for(ticket, time_spent, comment, Some(text))),
        Some(Err(e)) => Err(e),
    }
}

/// The text of an optional text.
pub open spec fn text_of(s: Option<&str>) -> Option<Seq<char>> {
    match s {
        Some(text) => Some(text@),
        None => None,
    }
}

/// The start time that a body holds, if it holds one.
pub open spec fn started_in(body: Pairs) -> Option<Seq<char>> {
    found(as_map(body), "started"@)
}

/// The three keys of a body differ.
proof fn lemma_keys_differ()
    ensures
        "timeSpent"@ != "comment"@,
        "timeSpent"@ != "started"@,
        "comment"@ != "started"@,
{
    reveal_strlit("timeSpent");
    reveal_strlit("comment");
    reveal_strlit("started");
    assert("timeSpent"@[0] == 't');
    assert("comment"@[0] == 'c');
    assert("started"@[0] == 's');
}

/// A body holds each of its keys once. It holds the time spent and the
/// comment as they were given, and the start time if one was given: with
/// none, it has no member `started`.
pub proof fn law_body_holds_what_was_given(
    time_spent: Seq<char>,
    comment: Seq<char>,
    started: Option<Seq<char>>,
)
    ensures
        distinct_ids(body_members(time_spent, comment, started)),
        found(as_map(body_members(time_spent, comment, started)), "timeSpent"@) == Some(
            time_spent,
        ),
        found(as_map(body_members(time_spent, comment, started)), "comment"@) == Some(comment),
        started_in(body_members(time_spent, comment, started)) == started,
{
    lemma_keys_differ();
    let body = body_members(time_spent, comment, started);
    lemma_place_unique(body, "timeSpent"@, 0);
    lemma_place_unique(body, "comment"@, 1);
    match started {
        Some(text) => {
            lemma_place_unique(body, "started"@, 2);
        },
        None => {
            if as_map(body).contains_key("started"@) {
                let i = crate::cache::place_of(body, "started"@);
                assert(crate::cache::entry_at(body, "started"@, i));
            }
        },
    }
}

/// Builds the request that logs `time_spent` on `ticket`, with the start
/// time as it is.
pub fn build_request(
    ticket: &str,
    time_spent: &str,
    comment: Option<&str>,
    started: Option<String>,
) -> (r: WorkLogRequest)
    ensures
        r@ == request_for(
            ticket@,
            time_spent@,
            text_of(comment),
            match started {
                Some(text) => Some(text@),
                None => None,
            },
        ),
{
    let mut path = "issue/".to_owned();
    path.append(ticket);
    path.append("/worklog");
    let comment = match comment {
        Some(text) => text,
        None => "",
    };
    let mut body = new_object();
    set_text(&mut body, "timeSpent", time_spent);
    set_text(&mut body, "comment", comment);
    proof {
        reveal_strlit("");
        assert(""@ =~= Seq::<char>::empty());
        lemma_keys_differ();
        let none = Pairs::empty();
        lemma_put_new(none, "timeSpent"@, time_spent@);
        lemma_put_new(none.push(("timeSpent"@, time_spent@)), "comment"@, comment@);
        assert(members(body) =~= seq![("timeSpent"@, time_spent@), ("comment"@, comment@)]);
    }
    if let Some(text) = &started {
        proof {
            lemma_put_new(members(body), "started"@, text@);
        }
        set_text(&mut body, "started", text.as_str());
    }
    WorkLogRequest { path, body, attempts: ATTEMPTS }
}

/// An outcome of `log_work` as plain text.
pub open spec fn prepared(r: Result<WorkLogRequest, ParseError>) -> Result<
    WorkLogRequestView,
    ParseError,
> {
    match r {
        Ok(request) => Ok(request@),
        Err(e) => Err(e),
    }
}

/// Prepares the logging of `time_spent` on `ticket`. A start time is read
/// and written again in the shape the tracker accepts; where it cannot be
/// read, nothing is to be sent and the parser's reason is returned.
pub fn log_work(
    ticket: &str,
    time_spent: &str,
    comment: Option<&str>,
    start_time: Option<&str>,
) -> (r: Result<WorkLogRequest, ParseError>)
    ensures
        prepared(r) == logged(
            ticket@,
            time_spent@,
            text_of(comment),
            match start_time {
                Some(text) => Some(reparsed(text@)),
                None => None,
            },
        ),
        r matches Ok(request) ==> ((started_in(request@.body) is Some) == (start_time is Some)),
        r matches Ok(request) ==> (started_in(request@.body) matches Some(text)
            ==> ends_normalized(text)),
{
    proof {
        let sent = comment_sent(text_of(comment));
        match start_time {
            Some(text) => match reparsed(text@) {
                Ok(started) => law_body_holds_what_was_given(time_spent@, sent, Some(started)),
                Err(_) => {},
            },
            None => law_body_holds_what_was_given(time_spent@, sent, None),
        }
    }
    match start_time {
        Some(text) => match reparse(text) {
            Ok(started) => Ok(build_request(ticket, time_spent, comment, Some(started))),
            Err(e) => Err(e),
        },
        None => Ok(build_request(ticket, time_spent, comment, None)),
    }
}

/// One piece of work to be logged, as the user gave it.
#[derive(Debug, PartialEq, Eq)]
pub struct WorkLogEntry {
    /// The ticket worked on.
    pub ticket_id: String,
    /// The time spent, in the tracker's notation, which only the tracker
    /// reads: `1h 30m`.
    pub time_spent: String,
    /// The comment, which may be empty.
    pub comment: String,
    /// When the work began, if that is to be recorded.
    pub start_time: Option<String>,
}

/// A `WorkLogEntry` as plain text.
pub struct WorkLogEntryView {
    pub ticket_id: Seq<char>,
    pub time_spent: Seq<char>,
    pub comment: Seq<char>,
    pub start_time: Option<Seq<char>>,
}

impl View for WorkLogEntry {
    type V = WorkLogEntryView;

    open spec fn view(&self) -> WorkLogEntryView {
        WorkLogEntryView {
            ticket_id: self.ticket_id@,
            time_spent: self.time_spent@,
            comment: self.comment@,
            start_time: match self.start_time {
                Some(text) => Some(text@),
                None => None,
            },
        }
    }
}

/// What preparing an entry gives: its request, or why its start time
/// cannot be read.
pub open spec fn entry_logged(entry: WorkLogEntryView) -> Result<WorkLogRequestView, ParseError> {
    logged(
        entry.ticket_id,
        entry.time_spent,
        Some(entry.comment),
        match entry.start_time {
            Some(text) => Some(reparsed(text)),
            None => None,
        },
    )
}

impl WorkLogEntry {
    /// Prepares the logging of the entry, as `log_work` does.
    pub fn prepare(&self) -> (r: Result<WorkLogRequest, ParseError>)
        ensures
            prepared(r) == entry_logged(self@),
            r matches Ok(request) ==> ((started_in(request@.body) is Some) == (
                self.start_time is Some)),
            r matches Ok(request) ==> (started_in(request@.body) matches Some(text)
                ==> ends_normalized(text)),
    {
        let start_time = match &self.start_time {
            Some(text) => Some(text.as_str()),
            None => None,
        };
        log_work(
            self.ticket_id.as_str(),
            self.time_spent.as_str(),
            Some(self.comment.as_str()),
            start_time,
        )
    }
}

/// What came of a submission.
#[derive(Debug, PartialEq, Eq)]
pub enum SubmitOutcome {
    /// The tracker took the work log.
    Success,
    /// It did not, after all attempts; the error as it came.
    Failure(String),
}

/// A `SubmitOutcome` as plain text.
pub enum SubmitOutcomeView {
    Success,
    Failure(Seq<char>),
}

impl View for SubmitOutcome {
    type V = SubmitOutcomeView;

    open spec fn view(&self) -> SubmitOutcomeView {
        match self {
            SubmitOutcome::Success => SubmitOutcomeView::Success,
            SubmitOutcome::Failure(message) => SubmitOutcomeView::Failure(message@),
        }
    }
}

/// Reads what posting a request gave: the error of a failed post is kept as
/// it is.
pub fn outcome_of(posted: Result<(), String>) -> (r: SubmitOutcome)
    ensures
        r@ == match posted {
            Ok(_) => SubmitOutcomeView::Success,
            Err(error) => SubmitOutcomeView::Failure(error@),
        },
{
    match posted {
        Ok(_) => SubmitOutcome::Success,
        Err(error) => SubmitOutcome::Failure(error),
    }
}

} // verus!
