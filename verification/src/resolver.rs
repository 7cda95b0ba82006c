//! Choosing the ticket to log work on: from the cache, through a chooser that
//! is offered its lines, or by an id that the user types and the tracker
//! confirms.

use crate::cache::{
    as_map, distinct_ids, holds, lemma_put, pairs_of, put, Pairs, TicketCache, Titles,
};
use crate::text::{first_token, first_word};
use crate::wire::{is_null, text_at, text_under, value_is_null};
use json::JsonValue;
use vstd::prelude::*;

verus! {

/// The line that the chooser is offered for a ticket: `{id} - {title}`.
pub open spec fn line_of(pair: (Seq<char>, Seq<char>)) -> Seq<char> {
    pair.0 + seq![' ', '-', ' '] + pair.1
}

/// The lines that the chooser is offered for `pairs`, in their order.
pub open spec fn lines_of(pairs: Pairs) -> Seq<Seq<char>> {
    Seq::new(pairs.len(), |i: int| line_of(pairs[i]))
}

/// The texts of a list of strings.
pub open spec fn texts(list: Seq<String>) -> Seq<Seq<char>> {
    Seq::new(list.len(), |i: int| list[i]@)
}

/// The lines that the chooser is offered for the tickets of `cache`.
pub fn chooser_lines(cache: &TicketCache) -> (r: Vec<String>)
    ensures
        texts(r@) == lines_of(cache.pairs()),
{
    let tickets = cache.tickets();
    let mut lines: Vec<String> = Vec::new();
    let mut i: usize = 0;
    while i < tickets.len()
        invariant
            i <= tickets.len(),
            lines.len() == i,
            forall|j: int| 0 <= j < i ==> (#[trigger] lines[j])@ == line_of(tickets[j]@),
        decreases tickets.len() - i,
    {
        proof {
            reveal_strlit(" - ");
            assert(" - "@ =~= seq![' ', '-', ' ']);
        }
        let mut line = tickets[i].id.clone();
        line.append(" - ");
        line.append(tickets[i].title.as_str());
        lines.push(line);
        i += 1;
    }
    assert(texts(lines@) =~= lines_of(cache.pairs())) by {
        assert(pairs_of(tickets@) == cache.pairs());
        assert forall|j: int| 0 <= j < lines.len() implies texts(lines@)[j] == lines_of(
            cache.pairs(),
        )[j] by {
            assert(lines[j]@ == line_of(tickets[j]@));
            assert(pairs_of(tickets@)[j] == tickets[j]@);
        }
    }
    lines
}

/// Why the user is asked to type a ticket id.
#[derive(Debug, PartialEq, Eq)]
pub enum Notice {
    /// The chooser wrote nothing.
    NothingChosen,
    /// The tracker could not be asked about the id typed before; the error.
    LookupFailed(String),
    /// The tracker has no ticket with the id typed before.
    NotFound,
}

/// A `Notice` as plain text.
pub enum NoticeView {
    NothingChosen,
    LookupFailed(Seq<char>),
    NotFound,
}

impl View for Notice {
    type V = NoticeView;

    open spec fn view(&self) -> NoticeView {
        match self {
            Notice::NothingChosen => NoticeView::NothingChosen,
            Notice::LookupFailed(error) => NoticeView::LookupFailed(error@),
            Notice::NotFound => NoticeView::NotFound,
        }
    }
}

/// How far the choice of a ticket has come.
#[derive(Debug, PartialEq, Eq)]
pub enum ResolverState {
    /// The chooser has been offered the cache.
    Offering,
    /// The user has been asked to type an id.
    ManualEntry,
    /// The tracker has been asked whether `id` exists.
    Validating { id: String },
    /// The ticket is chosen.
    Resolved { id: String, title: String },
}

/// A `ResolverState` as plain text.
pub enum ResolverStateView {
    Offering,
    ManualEntry,
    Validating { id: Seq<char> },
    Resolved { id: Seq<char>, title: Seq<char> },
}

impl View for ResolverState {
    type V = ResolverStateView;

    open spec fn view(&self) -> ResolverStateView {
        match self {
            ResolverState::Offering => ResolverStateView::Offering,
            ResolverState::ManualEntry => ResolverStateView::ManualEntry,
            ResolverState::Validating { id } => ResolverStateView::Validating { id: id@ },
            ResolverState::Resolved { id, title } => ResolverStateView::Resolved {
                id: id@,
                title: title@,
            },
        }
    }
}

/// What the world answers to a `ResolverAction`.
#[derive(Debug, PartialEq, Eq)]
pub enum ResolverEvent {
    /// What the chooser wrote: the chosen line, or nothing.
    Chosen(String),
    /// The id that the user typed.
    Entered(String),
    /// The tracker could not be asked; the error.
    LookupFailed(String),
    /// The tracker answered that there is no such ticket.
    NotFound,
    /// The tracker answered with the ticket; its title.
    Found(String),
}

/// A `ResolverEvent` as plain text.
pub enum ResolverEventView {
    Chosen(Seq<char>),
    Entered(Seq<char>),
    LookupFailed(Seq<char>),
    NotFound,
    Found(Seq<char>),
}

impl View for ResolverEvent {
    type V = ResolverEventView;

    open spec fn view(&self) -> ResolverEventView {
        match self {
            ResolverEvent::Chosen(output) => ResolverEventView::Chosen(output@),
            ResolverEvent::Entered(id) => ResolverEventView::Entered(id@),
            ResolverEvent::LookupFailed(error) => ResolverEventView::LookupFailed(error@),
            ResolverEvent::NotFound => ResolverEventView::NotFound,
            ResolverEvent::Found(title) => ResolverEventView::Found(title@),
        }
    }
}

/// The event that the tracker's answer to a lookup is: a failure with its
/// error, nothing found where the answer is `null`, and else the ticket with
/// the `summary` among its `fields` as title.
pub open spec fn looked_up(reply: Result<JsonValue, String>) -> ResolverEventView {
    match reply {
        Err(error) => ResolverEventView::LookupFailed(error@),
        Ok(ticket) => if is_null(ticket) {
            ResolverEventView::NotFound
        } else {
            ResolverEventView::Found(text_at(ticket, "fields"@, "summary"@))
        },
    }
}

/// Reads the tracker's answer to a lookup.
pub fn lookup_event(reply: Result<JsonValue, String>) -> (r: ResolverEvent)
    ensures
        r@ == looked_up(reply),
{
    match reply {
        Err(error) => ResolverEvent::LookupFailed(error),
        Ok(ticket) => if value_is_null(&ticket) {
            ResolverEvent::NotFound
        } else {
            ResolverEvent::Found(text_under(&ticket, "fields", "summary"))
        },
    }
}

/// What is to be done next for the choice of a ticket.
#[derive(Debug, PartialEq, Eq)]
pub enum ResolverAction {
    /// Offer these lines to the chooser and report what it writes.
    Offer(Vec<String>),
    /// Tell the user the notice, if there is one, and ask for a ticket id.
    Prompt(Option<Notice>),
    /// Ask the tracker for the ticket with this id.
    Validate(String),
    /// Nothing more: the ticket is chosen. A `fresh` one has just been
    /// confirmed by the tracker and is new to the persisted cache.
    Finish { id: String, title: String, fresh: bool },
}

/// A `ResolverAction` as plain text.
pub enum ResolverActionView {
    Offer(Seq<Seq<char>>),
    Prompt(Option<NoticeView>),
    Validate(Seq<char>),
    Finish { id: Seq<char>, title: Seq<char>, fresh: bool },
}

impl View for ResolverAction {
    type V = ResolverActionView;

    open spec fn view(&self) -> ResolverActionView {
        match self {
            ResolverAction::Offer(lines) => ResolverActionView::Offer(texts(lines@)),
            ResolverAction::Prompt(notice) => ResolverActionView::Prompt(
                match notice {
                    Some(n) => Some(n@),
                    None => None,
                },
            ),
            ResolverAction::Validate(id) => ResolverActionView::Validate(id@),
            ResolverAction::Finish { id, title, fresh } => ResolverActionView::Finish {
                id: id@,
                title: title@,
                fresh: *fresh,
            },
        }
    }
}

/// The cached ticket that the chooser's output names: the one whose id is the
/// first token of the output.
pub open spec fn chosen(pairs: Pairs, output: Seq<char>) -> Option<Seq<char>> {
    match first_token(output) {
        Some(id) => if holds(pairs, id) {
            Some(id)
        } else {
            None
        },
        None => None,
    }
}

/// The choice of a ticket, as a machine: the state, the action and the cache
/// that follow from a state, an event and a cache, or nothing where the event
/// is no answer to what the state waits for.
///
/// While offering, an empty output of the chooser leads to manual entry, and
/// an output that names a cached ticket resolves to it. An id typed in manual
/// entry is validated. A validation that fails, or finds nothing, leads back
/// to manual entry; one that finds the ticket puts it into the cache and
/// resolves to it.
pub open spec fn next(
    state: ResolverStateView,
    event: ResolverEventView,
    pairs: Pairs,
) -> Option<(ResolverStateView, ResolverActionView, Pairs)> {
    match (state, event) {
        (ResolverStateView::Offering, ResolverEventView::Chosen(output)) => {
            if output.len() == 0 {
                Some(
                    (
                        ResolverStateView::ManualEntry,
                        ResolverActionView::Prompt(Some(NoticeView::NothingChosen)),
                        pairs,
                    ),
                )
            } else {
                match chosen(pairs, output) {
                    Some(id) => Some(
                        (
                            ResolverStateView::Resolved { id, title: as_map(pairs)[id] },
                            ResolverActionView::Finish {
                                id,
                                title: as_map(pairs)[id],
                                fresh: false,
                            },
                            pairs,
                        ),
                    ),
                    None => None,
                }
            }
        },
        (ResolverStateView::ManualEntry, ResolverEventView::Entered(id)) => Some(
            (ResolverStateView::Validating { id }, ResolverActionView::Validate(id), pairs),
        ),
        (ResolverStateView::Validating { id }, ResolverEventView::LookupFailed(error)) => Some(
            (
                ResolverStateView::ManualEntry,
                ResolverActionView::Prompt(Some(NoticeView::LookupFailed(error))),
                pairs,
            ),
        ),
        (ResolverStateView::Validating { id }, ResolverEventView::NotFound) => Some(
            (
                ResolverStateView::ManualEntry,
                ResolverActionView::Prompt(Some(NoticeView::NotFound)),
                pairs,
            ),
        ),
        (ResolverStateView::Validating { id }, ResolverEventView::Found(title)) => Some(
            (
                ResolverStateView::Resolved { id, title },
                ResolverActionView::Finish { id, title, fresh: true },
                put(pairs, id, title),
            ),
        ),
        _ => None,
    }
}

/// The mapping from id to title that the cache holds after a step: a ticket
/// that the tracker has just confirmed is written into it.
pub open spec fn next_map(
    state: ResolverStateView,
    event: ResolverEventView,
    map: Titles,
) -> Titles {
    match (state, event) {
        (ResolverStateView::Validating { id }, ResolverEventView::Found(title)) => map.insert(
            id,
            title,
        ),
        _ => map,
    }
}

/// What a step returns, with the cache it leaves, for what `next` gives: on
/// nothing, the state and the cache as they were and no action.
pub open spec fn stepped(
    state: ResolverStateView,
    pairs: Pairs,
    to: Option<(ResolverStateView, ResolverActionView, Pairs)>,
) -> (ResolverStateView, Option<ResolverActionView>, Pairs) {
    match to {
        Some((state, action, pairs)) => (state, Some(action), pairs),
        None => (state, None, pairs),
    }
}

/// An optional action as plain text.
pub open spec fn action_view(action: Option<ResolverAction>) -> Option<ResolverActionView> {
    match action {
        Some(a) => Some(a@),
        None => None,
    }
}

/// Begins the choice of a ticket: the chooser is offered the cache.
pub fn start(cache: &TicketCache) -> (r: (ResolverState, ResolverAction))
    ensures
        r.0@ == ResolverStateView::Offering,
        r.1@ == ResolverActionView::Offer(lines_of(cache.pairs())),
{
    (ResolverState::Offering, ResolverAction::Offer(chooser_lines(cache)))
}

/// Takes the choice of a ticket one event further, as `next` says. An event
/// that is no answer to what the state waits for changes nothing and gives
/// no action.
pub fn step(state: ResolverState, event: ResolverEvent, cache: &mut TicketCache) -> (r: (
    ResolverState,
    Option<ResolverAction>,
))
    ensures
        (r.0@, action_view(r.1), final(cache).pairs()) == stepped(
            state@,
            old(cache).pairs(),
            next(state@, event@, old(cache).pairs()),
        ),
        final(cache)@ == next_map(state@, event@, old(cache)@),
{
    match (state, event) {
        (ResolverState::Offering, ResolverEvent::Chosen(output)) => {
            if output.as_str().is_empty() {
                (
                    ResolverState::ManualEntry,
                    Some(ResolverAction::Prompt(Some(Notice::NothingChosen))),
                )
            } else {
                match first_word(output.as_str()) {
                    Some(id) => match cache.lookup(id.as_str()) {
                        Some(title) => (
                            ResolverState::Resolved { id: id.clone(), title: title.clone() },
                            Some(ResolverAction::Finish { id, title, fresh: false }),
                        ),
                        None => (ResolverState::Offering, None),
                    },
                    None => (ResolverState::Offering, None),
                }
            }
        },
        (ResolverState::ManualEntry, ResolverEvent::Entered(id)) => (
            ResolverState::Validating { id: id.clone() },
            Some(ResolverAction::Validate(id)),
        ),
        (ResolverState::Validating { id }, ResolverEvent::LookupFailed(error)) => (
            ResolverState::ManualEntry,
            Some(ResolverAction::Prompt(Some(Notice::LookupFailed(error)))),
        ),
        (ResolverState::Validating { id }, ResolverEvent::NotFound) => (
            ResolverState::ManualEntry,
            Some(ResolverAction::Prompt(Some(Notice::NotFound))),
        ),
        (ResolverState::Validating { id }, ResolverEvent::Found(title)) => {
            cache.insert(id.clone(), title.clone());
            (
                ResolverState::Resolved { id: id.clone(), title: title.clone() },
                Some(ResolverAction::Finish { id, title, fresh: true }),
            )
        },
        (state, _) => (state, None),
    }
}

/// A ticket gets resolved in two ways only: the chooser names a ticket of
/// the cache, or the tracker has just confirmed the id that the user typed.
/// No id is taken on the user's word alone.
pub proof fn law_resolves_known_tickets_only(
    state: ResolverStateView,
    event: ResolverEventView,
    pairs: Pairs,
)
    requires
        next(state, event, pairs) matches Some(to) && to.0 is Resolved,
    ensures
        ({
            let id = next(state, event, pairs).unwrap().0->Resolved_id;
            ||| state is Offering && event is Chosen && holds(pairs, id)
            ||| state == (ResolverStateView::Validating { id }) && event is Found
        }),
{
}

/// A ticket that has been resolved is in the cache, under the title it was
/// resolved with.
pub proof fn law_resolved_ticket_is_cached(
    state: ResolverStateView,
    event: ResolverEventView,
    pairs: Pairs,
)
    requires
        distinct_ids(pairs),
        next(state, event, pairs) matches Some(to) && to.0 is Resolved,
    ensures
        ({
            let to = next(state, event, pairs).unwrap();
            &&& distinct_ids(to.2)
            &&& as_map(to.2).contains_key(to.0->Resolved_id)
            &&& as_map(to.2)[to.0->Resolved_id] == to.0->Resolved_title
            &&& as_map(to.2) == next_map(state, event, as_map(pairs))
        }),
{
    match (state, event) {
        (ResolverStateView::Validating { id }, ResolverEventView::Found(title)) => {
            lemma_put(pairs, id, title);
        },
        _ => {},
    }
}

/// A lookup that fails, or finds nothing, is never the end: the user is
/// told and asked again, and the cache stays as it was.
pub proof fn law_failed_lookup_asks_again(
    state: ResolverStateView,
    event: ResolverEventView,
    pairs: Pairs,
)
    requires
        state is Validating,
        event is LookupFailed || event is NotFound,
    ensures
        ({
            let to = next(state, event, pairs);
            &&& to is Some
            &&& to.unwrap().0 is ManualEntry
            &&& to.unwrap().1 is Prompt
            &&& to.unwrap().1->Prompt_0 is Some
            &&& to.unwrap().2 == pairs
        }),
{
}

} // verus!
