//! The interactive session: for each date, entry after entry, a start time,
//! a ticket, the time spent and a comment are asked for and the entry is
//! submitted, until the user has had enough. The session decides; whoever
//! runs it does what it asks and reports back.

use crate::cache::{
    as_map, collected, from_tickets, holds, lemma_put_keeps, merge, merged, pairs_of, put_all,
    Pairs, Ticket, TicketCache, Titles,
};
use crate::resolver;
use crate::resolver::{
    ResolverAction, ResolverActionView, ResolverEvent, ResolverEventView, ResolverState,
    ResolverStateView,
};
use crate::text::{affirmative, is_affirmative};
use crate::timestamp::{ends_normalized, normalize, normalized, ParseError};
use crate::worklog::{
    entry_logged, started_in, SubmitOutcome, SubmitOutcomeView, WorkLogEntry, WorkLogEntryView,
    WorkLogRequest, WorkLogRequestView,
};
use vstd::prelude::*;

verus! {

/// What the world answers to a `SessionAction`.
#[derive(Debug)]
pub enum SessionEvent {
    /// The tickets assigned to the user, as the tracker lists them, and the
    /// cache as it was persisted.
    Fetched { tickets: Vec<Ticket>, persisted: TicketCache },
    /// What the user typed at a prompt.
    Answer(String),
    /// What the chooser wrote, or what the tracker answered to a lookup.
    Choice(ResolverEvent),
    /// What came of the submission.
    Submitted(SubmitOutcome),
}

/// A `SessionEvent` as plain text.
pub enum SessionEventView {
    Fetched { tickets: Pairs, persisted: Pairs },
    Answer(Seq<char>),
    Choice(ResolverEventView),
    Submitted(SubmitOutcomeView),
}

impl View for SessionEvent {
    type V = SessionEventView;

    open spec fn view(&self) -> SessionEventView {
        match self {
            SessionEvent::Fetched { tickets, persisted } => SessionEventView::Fetched {
                tickets: pairs_of(tickets@),
                persisted: persisted.pairs(),
            },
            SessionEvent::Answer(text) => SessionEventView::Answer(text@),
            SessionEvent::Choice(event) => SessionEventView::Choice(event@),
            SessionEvent::Submitted(outcome) => SessionEventView::Submitted(outcome@),
        }
    }
}

/// How an entry ended, for the user to be told.
#[derive(Debug, PartialEq, Eq)]
pub enum Report {
    /// Nothing was sent: the start time of the entry cannot be read.
    Rejected { title: String, entry: WorkLogEntry, error: ParseError },
    /// The entry for the ticket was sent, with this outcome.
    Sent { ticket_id: String, outcome: SubmitOutcome },
}

/// A `Report` as plain text.
pub enum ReportView {
    Rejected { title: Seq<char>, entry: WorkLogEntryView, error: ParseError },
    Sent { ticket_id: Seq<char>, outcome: SubmitOutcomeView },
}

impl View for Report {
    type V = ReportView;

    open spec fn view(&self) -> ReportView {
        match self {
            Report::Rejected { title, entry, error } => ReportView::Rejected {
                title: title@,
                entry: entry@,
                error: *error,
            },
            Report::Sent { ticket_id, outcome } => ReportView::Sent {
                ticket_id: ticket_id@,
                outcome: outcome@,
            },
        }
    }
}

/// What is to be done next. Each action but the last is answered by an event.
#[derive(Debug, PartialEq)]
pub enum SessionAction {
    /// Fetch the tickets assigned to the user and read the persisted cache.
    Fetch,
    /// Ask for the date of the entries to come; `again` after another date.
    AskDate { again: bool },
    /// Ask for the time of day at which the work began.
    AskTime,
    /// Go on with the choice of the ticket.
    Resolve(ResolverAction),
    /// Show the chosen ticket, add it to the persisted cache if it is
    /// `fresh`, and ask for the time spent.
    AskTimeSpent { ticket_id: String, title: String, fresh: bool },
    /// Ask for the comment.
    AskComment,
    /// Show the entry and post the request.
    Submit { title: String, entry: WorkLogEntry, request: WorkLogRequest },
    /// Tell the user how the entry ended and ask whether another entry for
    /// the same date follows.
    AskSameDate(Report),
    /// Ask whether entries for another date follow.
    AskAnotherDate,
    /// Nothing more: the session is over.
    Finish,
}

/// A `SessionAction` as plain text.
pub enum SessionActionView {
    Fetch,
    AskDate { again: bool },
    AskTime,
    Resolve(ResolverActionView),
    AskTimeSpent { ticket_id: Seq<char>, title: Seq<char>, fresh: bool },
    AskComment,
    Submit { title: Seq<char>, entry: WorkLogEntryView, request: WorkLogRequestView },
    AskSameDate(ReportView),
    AskAnotherDate,
    Finish,
}

impl View for SessionAction {
    type V = SessionActionView;

    open spec fn view(&self) -> SessionActionView {
        match self {
            SessionAction::Fetch => SessionActionView::Fetch,
            SessionAction::AskDate { again } => SessionActionView::AskDate { again: *again },
            SessionAction::AskTime => SessionActionView::AskTime,
            SessionAction::Resolve(action) => SessionActionView::Resolve(action@),
            SessionAction::AskTimeSpent { ticket_id, title, fresh } => {
                SessionActionView::AskTimeSpent {
                    ticket_id: ticket_id@,
                    title: title@,
                    fresh: *fresh,
                }
            },
            SessionAction::AskComment => SessionActionView::AskComment,
            SessionAction::Submit { title, entry, request } => SessionActionView::Submit {
                title: title@,
                entry: entry@,
                request: request@,
            },
            SessionAction::AskSameDate(report) => SessionActionView::AskSameDate(report@),
            SessionAction::AskAnotherDate => SessionActionView::AskAnotherDate,
            SessionAction::Finish => SessionActionView::Finish,
        }
    }
}

/// How far the session has come: what it waits for, and what it has been
/// told of the entry at hand.
#[derive(Debug, PartialEq, Eq)]
pub enum SessionState {
    /// Waiting for the tickets.
    Starting,
    /// Waiting for a date.
    Date,
    /// Waiting for a time of day.
    Time { date: String },
    /// Waiting for the next event of the choice of a ticket.
    Choosing { date: String, started: String, resolver: ResolverState },
    /// Waiting for the time spent.
    TimeSpent { date: String, started: String, ticket_id: String, title: String },
    /// Waiting for the comment.
    Comment { date: String, started: String, ticket_id: String, title: String, time_spent: String },
    /// Waiting for the outcome of the submission.
    Submitting { date: String, ticket_id: String },
    /// Waiting for word on another entry for the same date.
    SameDate { date: String },
    /// Waiting for word on another date.
    AnotherDate,
    /// Over.
    Finished,
}

/// A `SessionState` as plain text.
pub enum SessionStateView {
    Starting,
    Date,
    Time { date: Seq<char> },
    Choosing { date: Seq<char>, started: Seq<char>, resolver: ResolverStateView },
    TimeSpent { date: Seq<char>, started: Seq<char>, ticket_id: Seq<char>, title: Seq<char> },
    Comment {
        date: Seq<char>,
        started: Seq<char>,
        ticket_id: Seq<char>,
        title: Seq<char>,
        time_spent: Seq<char>,
    },
    Submitting { date: Seq<char>, ticket_id: Seq<char> },
    SameDate { date: Seq<char> },
    AnotherDate,
    Finished,
}

impl View for SessionState {
    type V = SessionStateView;

    open spec fn view(&self) -> SessionStateView {
        match self {
            SessionState::Starting => SessionStateView::Starting,
            SessionState::Date => SessionStateView::Date,
            SessionState::Time { date } => SessionStateView::Time { date: date@ },
            SessionState::Choosing { date, started, resolver } => SessionStateView::Choosing {
                date: date@,
                started: started@,
                resolver: resolver@,
            },
            SessionState::TimeSpent { date, started, ticket_id, title } => {
                SessionStateView::TimeSpent {
                    date: date@,
                    started: started@,
                    ticket_id: ticket_id@,
                    title: title@,
                }
            },
            SessionState::Comment { date, started, ticket_id, title, time_spent } => {
                SessionStateView::Comment {
                    date: date@,
                    started: started@,
                    ticket_id: ticket_id@,
                    title: title@,
                    time_spent: time_spent@,
                }
            },
            SessionState::Submitting { date, ticket_id } => SessionStateView::Submitting {
                date: date@,
                ticket_id: ticket_id@,
            },
            SessionState::SameDate { date } => SessionStateView::SameDate { date: date@ },
            SessionState::AnotherDate => SessionStateView::AnotherDate,
            SessionState::Finished => SessionStateView::Finished,
        }
    }
}

/// A session: its state, its ticket cache, and the offset from UTC of the
/// one time zone that all its start times are in.
pub struct Session {
    state: SessionState,
    cache: TicketCache,
    utc_offset: String,
}

/// A `Session` as plain values.
pub struct SessionView {
    pub state: SessionStateView,
    pub pairs: Pairs,
    pub utc_offset: Seq<char>,
}

impl View for Session {
    type V = SessionView;

    closed spec fn view(&self) -> SessionView {
        SessionView {
            state: self.state@,
            pairs: self.cache.pairs(),
            utc_offset: self.utc_offset@,
        }
    }
}

/// The event that a session event is for the choice of a ticket, if it is
/// one: what the user typed is the id that was asked for.
pub open spec fn for_resolver(event: SessionEventView) -> Option<ResolverEventView> {
    match event {
        SessionEventView::Answer(id) => Some(ResolverEventView::Entered(id)),
        SessionEventView::Choice(e) => Some(e),
        _ => None,
    }
}

/// The entry that the session has gathered when the comment comes in.
pub open spec fn gathered(
    started: Seq<char>,
    ticket_id: Seq<char>,
    time_spent: Seq<char>,
    comment: Seq<char>,
) -> WorkLogEntryView {
    WorkLogEntryView { ticket_id, time_spent, comment, start_time: Some(started) }
}

/// The session as a machine: the session and the action that follow from a
/// session and an event, or nothing where the event is no answer to what the
/// session waits for.
///
/// The fetched tickets are written over the persisted cache, once. Then, for
/// each date: for each entry, the time of day gives the start time, a ticket
/// is chosen, time spent and comment are asked for, and the entry is
/// submitted, unless its start time cannot be read; however that ends, the
/// user is asked whether another entry for the date follows, and after the
/// last one whether another date follows. Only a no to that ends the session.
pub open spec fn next(session: SessionView, event: SessionEventView) -> Option<
    (SessionView, SessionActionView),
> {
    match (session.state, event) {
        (SessionStateView::Starting, SessionEventView::Fetched { tickets, persisted }) => Some(
            (
                SessionView {
                    state: SessionStateView::Date,
                    pairs: put_all(persisted, put_all(Seq::empty(), tickets)),
                    ..session
                },
                SessionActionView::AskDate { again: false },
            ),
        ),
        (SessionStateView::Date, SessionEventView::Answer(date)) => Some(
            (
                SessionView { state: SessionStateView::Time { date }, ..session },
                SessionActionView::AskTime,
            ),
        ),
        (SessionStateView::Time { date }, SessionEventView::Answer(time)) => Some(
            (
                SessionView {
                    state: SessionStateView::Choosing {
                        date,
                        started: normalized(date, time, session.utc_offset),
                        resolver: ResolverStateView::Offering,
                    },
                    ..session
                },
                SessionActionView::Resolve(
                    ResolverActionView::Offer(resolver::lines_of(session.pairs)),
                ),
            ),
        ),
        (SessionStateView::Choosing { date, started, resolver }, _) => match for_resolver(event) {
            Some(e) => match resolver::next(resolver, e, session.pairs) {
                Some((ResolverStateView::Resolved { id, title }, action, pairs)) => Some(
                    (
                        SessionView {
                            state: SessionStateView::TimeSpent {
                                date,
                                started,
                                ticket_id: id,
                                title,
                            },
                            pairs,
                            ..session
                        },
                        SessionActionView::AskTimeSpent {
                            ticket_id: id,
                            title,
                            fresh: action is Finish && action->Finish_fresh,
                        },
                    ),
                ),
                Some((resolver, action, pairs)) => Some(
                    (
                        SessionView {
                            state: SessionStateView::Choosing { date, started, resolver },
                            pairs,
                            ..session
                        },
                        SessionActionView::Resolve(action),
                    ),
                ),
                None => None,
            },
            None => None,
        },
        (
            SessionStateView::TimeSpent { date, started, ticket_id, title },
            SessionEventView::Answer(time_spent),
        ) => Some(
            (
                SessionView {
                    state: SessionStateView::Comment { date, started, ticket_id, title, time_spent },
                    ..session
                },
                SessionActionView::AskComment,
            ),
        ),
        (
            SessionStateView::Comment { date, started, ticket_id, title, time_spent },
            SessionEventView::Answer(comment),
        ) => {
            let entry = gathered(started, ticket_id, time_spent, comment);
            match entry_logged(entry) {
                Ok(request) => Some(
                    (
                        SessionView {
                            state: SessionStateView::Submitting { date, ticket_id },
                            ..session
                        },
                        SessionActionView::Submit { title, entry, request },
                    ),
                ),
                Err(error) => Some(
                    (
                        SessionView { state: SessionStateView::SameDate { date }, ..session },
                        SessionActionView::AskSameDate(
                            ReportView::Rejected { title, entry, error },
                        ),
                    ),
                ),
            }
        },
        (
            SessionStateView::Submitting { date, ticket_id },
            SessionEventView::Submitted(outcome),
        ) => Some(
            (
                SessionView { state: SessionStateView::SameDate { date }, ..session },
                SessionActionView::AskSameDate(ReportView::Sent { ticket_id, outcome }),
            ),
        ),
        (SessionStateView::SameDate { date }, SessionEventView::Answer(answer)) => {
            if affirmative(answer) {
                Some(
                    (
                        SessionView { state: SessionStateView::Time { date }, ..session },
                        SessionActionView::AskTime,
                    ),
                )
            } else {
                Some(
                    (
                        SessionView { state: SessionStateView::AnotherDate, ..session },
                        SessionActionView::AskAnotherDate,
                    ),
                )
            }
        },
        (SessionStateView::AnotherDate, SessionEventView::Answer(answer)) => {
            if affirmative(answer) {
                Some(
                    (
                        SessionView { state: SessionStateView::Date, ..session },
                        SessionActionView::AskDate { again: true },
                    ),
                )
            } else {
                Some(
                    (
                        SessionView { state: SessionStateView::Finished, ..session },
                        SessionActionView::Finish,
                    ),
                )
            }
        },
        _ => None,
    }
}

/// The mapping from id to title that the cache holds after a step.
pub open spec fn next_map(state: SessionStateView, event: SessionEventView, map: Titles) -> Titles {
    match (state, event) {
        (SessionStateView::Starting, SessionEventView::Fetched { tickets, persisted }) => merged(
            collected(tickets),
            as_map(persisted),
        ),
        (SessionStateView::Choosing { date, started, resolver }, _) => match for_resolver(event) {
            Some(e) => resolver::next_map(resolver, e, map),
            None => map,
        },
        _ => map,
    }
}

/// What a step returns for what `next` gives: on nothing, the session as it
/// was and no action.
pub open spec fn stepped(session: SessionView, to: Option<(SessionView, SessionActionView)>) -> (
    SessionView,
    Option<SessionActionView>,
) {
    match to {
        Some((session, action)) => (session, Some(action)),
        None => (session, None),
    }
}

/// An optional action as plain text.
pub open spec fn action_view(action: Option<SessionAction>) -> Option<SessionActionView> {
    match action {
        Some(a) => Some(a@),
        None => None,
    }
}

/// The event that `event` is for the choice of a ticket, or `event` itself.
fn to_resolver(event: SessionEvent) -> (r: Result<ResolverEvent, SessionEvent>)
    ensures
        match r {
            Ok(e) => for_resolver(event@) == Some(e@),
            Err(same) => for_resolver(event@) is None && same == event,
        },
{
    match event {
        SessionEvent::Answer(id) => Ok(ResolverEvent::Entered(id)),
        SessionEvent::Choice(e) => Ok(e),
        other => Err(other),
    }
}

/// Begins an interactive session whose start times are all in the zone of
/// `utc_offset`: the session, and what it asks for first. `Session::step`
/// takes it on from there.
pub fn log_work_interactively(utc_offset: &str) -> (r: (Session, SessionAction))
    ensures
        r.0@ == (SessionView {
            state: SessionStateView::Starting,
            pairs: Seq::empty(),
            utc_offset: utc_offset@,
        }),
        r.1@ == SessionActionView::Fetch,
{
    (
        Session {
            state: SessionState::Starting,
            cache: TicketCache::new(),
            utc_offset: utc_offset.to_owned(),
        },
        SessionAction::Fetch,
    )
}

impl Session {
    /// The state of the session.
    pub fn state(&self) -> (r: &SessionState)
        ensures
            r@ == self@.state,
    {
        &self.state
    }

    /// The ticket cache of the session.
    pub fn cache(&self) -> (r: &TicketCache)
        ensures
            r.pairs() == self@.pairs,
    {
        &self.cache
    }

    /// Whether the session is over.
    pub fn is_finished(&self) -> (r: bool)
        ensures
            r == (self@.state is Finished),
    {
        match self.state {
            SessionState::Finished => true,
            _ => false,
        }
    }

    /// Takes the session one event further, as `next` says. An event that is
    /// no answer to what the session waits for changes nothing and gives no
    /// action.
    pub fn step(self, event: SessionEvent) -> (r: (Session, Option<SessionAction>))
        ensures
            (r.0@, action_view(r.1)) == stepped(self@, next(self@, event@)),
            as_map(r.0@.pairs) == next_map(self@.state, event@, as_map(self@.pairs)),
            ({
                let action = action_view(r.1);
                action is Some && action.unwrap() is Submit ==> {
                    let started = started_in(action.unwrap()->Submit_request.body);
                    started is Some && ends_normalized(started.unwrap())
                }
            }),
    {
        let Session { state, cache, utc_offset } = self;
        let mut cache = cache;
        match (state, event) {
            (SessionState::Starting, SessionEvent::Fetched { tickets, persisted }) => {
                let fetched = from_tickets(&tickets);
                let cache = merge(&fetched, persisted);
                (
                    Session { state: SessionState::Date, cache, utc_offset },
                    Some(SessionAction::AskDate { again: false }),
                )
            },
            (SessionState::Date, SessionEvent::Answer(date)) => (
                Session { state: SessionState::Time { date }, cache, utc_offset },
                Some(SessionAction::AskTime),
            ),
            (SessionState::Time { date }, SessionEvent::Answer(time)) => {
                let started = normalize(date.as_str(), time.as_str(), utc_offset.as_str());
                let (resolver, offer) = resolver::start(&cache);
                (
                    Session {
                        state: SessionState::Choosing { date, started, resolver },
                        cache,
                        utc_offset,
                    },
                    Some(SessionAction::Resolve(offer)),
                )
            },
            (SessionState::Choosing { date, started, resolver }, event) => {
                match to_resolver(event) {
                    Ok(e) => {
                        let (resolver, action) = resolver::step(resolver, e, &mut cache);
                        match (resolver, action) {
                            (_, Some(ResolverAction::Finish { id, title, fresh })) => (
                                Session {
                                    state: SessionState::TimeSpent {
                                        date,
                                        started,
                                        ticket_id: id.clone(),
                                        title: title.clone(),
                                    },
                                    cache,
                                    utc_offset,
                                },
                                Some(SessionAction::AskTimeSpent { ticket_id: id, title, fresh }),
                            ),
                            (resolver, Some(action)) => (
                                Session {
                                    state: SessionState::Choosing { date, started, resolver },
                                    cache,
                                    utc_offset,
                                },
                                Some(SessionAction::Resolve(action)),
                            ),
                            (resolver, None) => (
                                Session {
                                    state: SessionState::Choosing { date, started, resolver },
                                    cache,
                                    utc_offset,
                                },
                                None,
                            ),
                        }
                    },
                    Err(_) => (
                        Session {
                            state: SessionState::Choosing { date, started, resolver },
                            cache,
                            utc_offset,
                        },
                        None,
                    ),
                }
            },
            (
                SessionState::TimeSpent { date, started, ticket_id, title },
                SessionEvent::Answer(time_spent),
            ) => (
                Session {
                    state: SessionState::Comment { date, started, ticket_id, title, time_spent },
                    cache,
                    utc_offset,
                },
                Some(SessionAction::AskComment),
            ),
            (
                SessionState::Comment { date, started, ticket_id, title, time_spent },
                SessionEvent::Answer(comment),
            ) => {
                let entry = WorkLogEntry {
                    ticket_id: ticket_id.clone(),
                    time_spent,
                    comment,
                    start_time: Some(started),
                };
                match entry.prepare() {
                    Ok(request) => (
                        Session {
                            state: SessionState::Submitting { date, ticket_id },
                            cache,
                            utc_offset,
                        },
                        Some(SessionAction::Submit { title, entry, request }),
                    ),
                    Err(error) => (
                        Session { state: SessionState::SameDate { date }, cache, utc_offset },
                        Some(SessionAction::AskSameDate(Report::Rejected { title, entry, error })),
                    ),
                }
            },
            (SessionState::Submitting { date, ticket_id }, SessionEvent::Submitted(outcome)) => (
                Session { state: SessionState::SameDate { date }, cache, utc_offset },
                Some(SessionAction::AskSameDate(Report::Sent { ticket_id, outcome })),
            ),
            (SessionState::SameDate { date }, SessionEvent::Answer(answer)) => {
                if is_affirmative(answer.as_str()) {
                    (
                        Session { state: SessionState::Time { date }, cache, utc_offset },
                        Some(SessionAction::AskTime),
                    )
                } else {
                    (
                        Session { state: SessionState::AnotherDate, cache, utc_offset },
                        Some(SessionAction::AskAnotherDate),
                    )
                }
            },
            (SessionState::AnotherDate, SessionEvent::Answer(answer)) => {
                if is_affirmative(answer.as_str()) {
                    (
                        Session { state: SessionState::Date, cache, utc_offset },
                        Some(SessionAction::AskDate { again: true }),
                    )
                } else {
                    (
                        Session { state: SessionState::Finished, cache, utc_offset },
                        Some(SessionAction::Finish),
                    )
                }
            },
            (state, _) => (Session { state, cache, utc_offset }, None),
        }
    }
}

/// Only the user ends a session: it is over after a step only where it
/// waited for word on another date and the answer was not a yes.
pub proof fn law_only_a_no_ends_the_session(session: SessionView, event: SessionEventView)
    requires
        next(session, event) matches Some(to) && to.0.state is Finished,
    ensures
        session.state is AnotherDate,
        event matches SessionEventView::Answer(answer) && !affirmative(answer),
{
}

/// Once the session has its tickets, it keeps each of them to its end: no
/// step takes an id out of the cache.
pub proof fn law_tickets_are_retained(session: SessionView, event: SessionEventView, id: Seq<char>)
    requires
        !(session.state is Starting),
        holds(session.pairs, id),
        next(session, event) is Some,
    ensures
        holds(next(session, event).unwrap().0.pairs, id),
{
    match (session.state, for_resolver(event)) {
        (
            SessionStateView::Choosing { date, started, resolver },
            Some(ResolverEventView::Found(title)),
        ) => {
            match resolver {
                ResolverStateView::Validating { id: validated } => {
                    lemma_put_keeps(session.pairs, validated, title, id);
                },
                _ => {},
            }
        },
        _ => {},
    }
}

/// A submission that failed ends neither the session nor the date: the
/// user is told and asked whether another entry for the same date follows,
/// as after one that went through.
pub proof fn law_failed_submission_is_reported(session: SessionView, outcome: SubmitOutcomeView)
    requires
        session.state is Submitting,
    ensures
        ({
            let to = next(session, SessionEventView::Submitted(outcome));
            &&& to is Some
            &&& to.unwrap().0.state == (SessionStateView::SameDate {
                date: session.state->Submitting_date,
            })
            &&& to.unwrap().1 == SessionActionView::AskSameDate(
                ReportView::Sent { ticket_id: session.state->Submitting_ticket_id, outcome },
            )
            &&& to.unwrap().0.pairs == session.pairs
        }),
{
}

/// Nothing is sent for an entry whose start time cannot be read, and what
/// is sent for another is the request that preparing the entry gives: the
/// session asks for a submission only when the comment has come in.
pub proof fn law_only_readable_entries_are_sent(session: SessionView, event: SessionEventView)
    requires
        next(session, event) matches Some(to) && to.1 is Submit,
    ensures
        session.state is Comment,
        event is Answer,
        ({
            let to = next(session, event).unwrap();
            &&& to.0.state is Submitting
            &&& entry_logged(to.1->Submit_entry) == Ok::<WorkLogRequestView, ParseError>(
                to.1->Submit_request,
            )
            &&& to.1->Submit_entry.start_time == Some(session.state->Comment_started)
            &&& to.1->Submit_request.body.len() == 3
        }),
{
}

} // verus!
