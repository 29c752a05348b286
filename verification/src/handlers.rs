//! The handling of one inline query, as a machine that decides and never
//! acts: each step takes what has just happened and says what to do next.
//! The caller does it and comes back with the outcome.

use crate::inline::{inline_results, results_view, InlineQueryResult, InlineQueryResultView};
use crate::risibank::{
    outcome_view, RisibankError, RisibankErrorView, RisibankSearchResult, StickerView,
};
use vstd::prelude::*;

verus! {

/// For how many seconds the platform may cache an answer: not at all, since
/// the catalog may order its results anew at every search.
pub const ANSWER_CACHE_TIME: u32 = 0;

/// An inline query as the platform delivers it.
#[derive(Debug, Clone, PartialEq, Eq)]
pub struct InlineQuery {
    /// The platform's identifier of the query, which the answer must carry.
    pub id: String,
    /// What the user typed, possibly nothing.
    pub query: String,
}

pub struct InlineQueryView {
    pub id: Seq<char>,
    pub query: Seq<char>,
}

impl View for InlineQuery {
    type V = InlineQueryView;

    open spec fn view(&self) -> InlineQueryView {
        InlineQueryView { id: self.id@, query: self.query@ }
    }
}

/// An answer to an inline query, ready to be submitted to the platform.
#[derive(Debug, Clone, PartialEq, Eq)]
pub struct InlineAnswer {
    /// The identifier of the query that is answered.
    pub inline_query_id: String,
    /// The results to show, in order.
    pub results: Vec<InlineQueryResult>,
    /// For how many seconds the platform may cache the answer.
    pub cache_time: u32,
}

pub struct InlineAnswerView {
    pub inline_query_id: Seq<char>,
    pub results: Seq<InlineQueryResultView>,
    pub cache_time: nat,
}

impl View for InlineAnswer {
    type V = InlineAnswerView;

    open spec fn view(&self) -> InlineAnswerView {
        InlineAnswerView {
            inline_query_id: self.inline_query_id@,
            results: results_view(self.results@),
            cache_time: self.cache_time as nat,
        }
    }
}

/// How far the handling of a query has come.
#[derive(Debug, Clone, PartialEq, Eq)]
pub enum HandlerState {
    /// No query has arrived yet.
    Idle,
    /// The catalog is being searched for the query with this identifier.
    Searching { query_id: String },
    /// The answer is being submitted.
    Answering,
    /// Nothing is left to do.
    Finished,
}

pub enum HandlerStateView {
    Idle,
    Searching { query_id: Seq<char> },
    Answering,
    Finished,
}

impl View for HandlerState {
    type V = HandlerStateView;

    open spec fn view(&self) -> HandlerStateView {
        match self {
            HandlerState::Idle => HandlerStateView::Idle,
            HandlerState::Searching { query_id } => HandlerStateView::Searching {
                query_id: query_id@,
            },
            HandlerState::Answering => HandlerStateView::Answering,
            HandlerState::Finished => HandlerStateView::Finished,
        }
    }
}

/// What has just happened.
#[derive(Debug, PartialEq, Eq)]
pub enum HandlerEvent {
    /// This query arrived.
    Received(InlineQuery),
    /// The search of the catalog ended like this.
    Searched(Result<RisibankSearchResult, RisibankError>),
    /// The submission of the answer ended; `delivered` tells whether the
    /// platform took it.
    Answered { delivered: bool },
}

pub enum HandlerEventView {
    Received(InlineQueryView),
    Searched(Result<Seq<StickerView>, RisibankErrorView>),
    Answered { delivered: bool },
}

impl View for HandlerEvent {
    type V = HandlerEventView;

    open spec fn view(&self) -> HandlerEventView {
        match self {
            HandlerEvent::Received(query) => HandlerEventView::Received(query@),
            HandlerEvent::Searched(outcome) => HandlerEventView::Searched(outcome_view(*outcome)),
            HandlerEvent::Answered { delivered } => HandlerEventView::Answered {
                delivered: *delivered,
            },
        }
    }
}

/// What to do next.
#[derive(Debug, Clone, PartialEq, Eq)]
pub enum HandlerAction {
    /// Search the catalog for this text and report how the search ended.
    Search(String),
    /// Submit this answer and report whether it was delivered.
    Answer(InlineAnswer),
    /// Stop: the query is dealt with.
    Finish,
}

pub enum HandlerActionView {
    Search(Seq<char>),
    Answer(InlineAnswerView),
    Finish,
}

impl View for HandlerAction {
    type V = HandlerActionView;

    open spec fn view(&self) -> HandlerActionView {
        match self {
            HandlerAction::Search(query) => HandlerActionView::Search(query@),
            HandlerAction::Answer(answer) => HandlerActionView::Answer(answer@),
            HandlerAction::Finish => HandlerActionView::Finish,
        }
    }
}

/// The answer to the query `query_id` after a search that ended in `outcome`:
/// the inline results of what was found, and nothing where the search failed.
pub open spec fn answer_to(
    query_id: Seq<char>,
    outcome: Result<Seq<StickerView>, RisibankErrorView>,
) -> InlineAnswerView {
    InlineAnswerView {
        inline_query_id: query_id,
        results: match outcome {
            Ok(stickers) => inline_results(stickers),
            Err(_) => Seq::empty(),
        },
        cache_time: ANSWER_CACHE_TIME as nat,
    }
}

/// One step of the handler: the state it moves to and what it asks for.
///
/// An empty query is dropped without a word. Any other query is searched
/// for, and the search is answered whatever its outcome. The submission of
/// the answer ends the handling whether or not it was delivered. An event
/// that the state does not wait for ends it too.
pub open spec fn handler_step(state: HandlerStateView, event: HandlerEventView) -> (
    HandlerStateView,
    HandlerActionView,
) {
    match (state, event) {
        (HandlerStateView::Idle, HandlerEventView::Received(query)) => {
            if query.query.len() == 0 {
                (HandlerStateView::Finished, HandlerActionView::Finish)
            } else {
                (
                    HandlerStateView::Searching { query_id: query.id },
                    HandlerActionView::Search(query.query),
                )
            }
        },
        (HandlerStateView::Searching { query_id }, HandlerEventView::Searched(outcome)) => (
            HandlerStateView::Answering,
            HandlerActionView::Answer(answer_to(query_id, outcome)),
        ),
        _ => (HandlerStateView::Finished, HandlerActionView::Finish),
    }
}

/// The actions that the handler asks for, in order, when it starts in `state`
/// and is told of `events` one after another.
pub open spec fn handler_run(state: HandlerStateView, events: Seq<HandlerEventView>) -> Seq<
    HandlerActionView,
>
    decreases events.len(),
{
    if events.len() == 0 {
        Seq::empty()
    } else {
        let (next, action) = handler_step(state, events[0]);
        seq![action] + handler_run(next, events.drop_first())
    }
}

/// The texts that `actions` ask the catalog for, in order.
pub open spec fn searches(actions: Seq<HandlerActionView>) -> Seq<Seq<char>>
    decreases actions.len(),
{
    if actions.len() == 0 {
        Seq::empty()
    } else {
        match actions[0] {
            HandlerActionView::Search(query) => seq![query] + searches(actions.drop_first()),
            _ => searches(actions.drop_first()),
        }
    }
}

/// The answers that `actions` submit, in order.
pub open spec fn answers(actions: Seq<HandlerActionView>) -> Seq<InlineAnswerView>
    decreases actions.len(),
{
    if actions.len() == 0 {
        Seq::empty()
    } else {
        match actions[0] {
            HandlerActionView::Answer(answer) => seq![answer] + answers(actions.drop_first()),
            _ => answers(actions.drop_first()),
        }
    }
}

/// A run that starts with `event` in `state` asks first for what that step
/// asks, and goes on from the state that the step moves to.
pub proof fn lemma_run_unfolds(
    state: HandlerStateView,
    event: HandlerEventView,
    rest: Seq<HandlerEventView>,
)
    ensures
        handler_run(state, seq![event] + rest) == seq![handler_step(state, event).1] + handler_run(
            handler_step(state, event).0,
            rest,
        ),
{
    let events = seq![event] + rest;
    assert(events.drop_first() =~= rest);
}

/// What a leading action adds to the searches and answers of the actions
/// behind it.
pub proof fn lemma_calls_unfold(action: HandlerActionView, rest: Seq<HandlerActionView>)
    ensures
        searches(seq![action] + rest) == match action {
            HandlerActionView::Search(query) => seq![query] + searches(rest),
            _ => searches(rest),
        },
        answers(seq![action] + rest) == match action {
            HandlerActionView::Answer(answer) => seq![answer] + answers(rest),
            _ => answers(rest),
        },
{
    let actions = seq![action] + rest;
    assert(actions.drop_first() =~= rest);
}

/// Once the answer is on its way, or the handling is over, the handler asks
/// for no search and no answer any more, whatever it is told.
pub proof fn lemma_quiet_after_answer(state: HandlerStateView, events: Seq<HandlerEventView>)
    requires
        state is Answering || state is Finished,
    ensures
        searches(handler_run(state, events)) == Seq::<Seq<char>>::empty(),
        answers(handler_run(state, events)) == Seq::<InlineAnswerView>::empty(),
    decreases events.len(),
{
    if events.len() > 0 {
        let (next, action) = handler_step(state, events[0]);
        lemma_quiet_after_answer(next, events.drop_first());
        lemma_calls_unfold(action, handler_run(next, events.drop_first()));
    }
}

/// While the catalog is searched the handler asks for no second search, and
/// for one answer at most.
pub proof fn lemma_one_answer_while_searching(
    state: HandlerStateView,
    events: Seq<HandlerEventView>,
)
    requires
        state is Searching,
    ensures
        searches(handler_run(state, events)) == Seq::<Seq<char>>::empty(),
        answers(handler_run(state, events)).len() <= 1,
    decreases events.len(),
{
    if events.len() > 0 {
        let (next, action) = handler_step(state, events[0]);
        lemma_quiet_after_answer(next, events.drop_first());
        lemma_calls_unfold(action, handler_run(next, events.drop_first()));
    }
}

/// Whatever the handler is told, in whatever order, it asks for one search
/// of the catalog at most and for one answer at most, and it never searches
/// for an empty text.
pub proof fn lemma_one_search_one_answer(events: Seq<HandlerEventView>)
    ensures
        searches(handler_run(HandlerStateView::Idle, events)).len() <= 1,
        answers(handler_run(HandlerStateView::Idle, events)).len() <= 1,
        forall|i: int|
            0 <= i < searches(handler_run(HandlerStateView::Idle, events)).len() ==> (
            #[trigger] searches(handler_run(HandlerStateView::Idle, events))[i]).len() > 0,
{
    if events.len() > 0 {
        let (next, action) = handler_step(HandlerStateView::Idle, events[0]);
        let rest = events.drop_first();
        if next is Searching {
            lemma_one_answer_while_searching(next, rest);
        } else {
            lemma_quiet_after_answer(next, rest);
        }
        lemma_calls_unfold(action, handler_run(next, rest));
    }
}

/// A query with an empty text leads to no search and to no answer.
pub proof fn lemma_empty_query_is_dropped(query: InlineQueryView, rest: Seq<HandlerEventView>)
    requires
        query.query.len() == 0,
    ensures
        handler_step(HandlerStateView::Idle, HandlerEventView::Received(query)) == (
            HandlerStateView::Finished,
            HandlerActionView::Finish,
        ),
        searches(
            handler_run(HandlerStateView::Idle, seq![HandlerEventView::Received(query)] + rest),
        ) == Seq::<Seq<char>>::empty(),
        answers(
            handler_run(HandlerStateView::Idle, seq![HandlerEventView::Received(query)] + rest),
        ) == Seq::<InlineAnswerView>::empty(),
{
    let first = HandlerEventView::Received(query);
    lemma_run_unfolds(HandlerStateView::Idle, first, rest);
    lemma_quiet_after_answer(HandlerStateView::Finished, rest);
    lemma_calls_unfold(HandlerActionView::Finish, handler_run(HandlerStateView::Finished, rest));
}

/// A query with a text is searched for once, and the search is answered
/// once, whatever its outcome and whatever follows: with the inline results
/// of what the catalog found, or with none where the search failed. The
/// answer carries the identifier of the query and may not be cached.
pub proof fn lemma_search_is_answered_once(
    query: InlineQueryView,
    outcome: Result<Seq<StickerView>, RisibankErrorView>,
    rest: Seq<HandlerEventView>,
)
    requires
        query.query.len() > 0,
    ensures
        searches(
            handler_run(
                HandlerStateView::Idle,
                seq![HandlerEventView::Received(query), HandlerEventView::Searched(outcome)] + rest,
            ),
        ) == seq![query.query],
        answers(
            handler_run(
                HandlerStateView::Idle,
                seq![HandlerEventView::Received(query), HandlerEventView::Searched(outcome)] + rest,
            ),
        ) == seq![answer_to(query.id, outcome)],
        answer_to(query.id, outcome).inline_query_id == query.id,
        answer_to(query.id, outcome).cache_time == 0,
        outcome is Err ==> answer_to(query.id, outcome).results == Seq::<
            InlineQueryResultView,
        >::empty(),
        outcome matches Ok(stickers) ==> answer_to(query.id, outcome).results == inline_results(
            stickers,
        ),
{
    let first = HandlerEventView::Received(query);
    let second = HandlerEventView::Searched(outcome);
    let searching = HandlerStateView::Searching { query_id: query.id };
    let events = seq![first, second] + rest;
    assert(events =~= seq![first] + (seq![second] + rest));
    lemma_run_unfolds(HandlerStateView::Idle, first, seq![second] + rest);
    lemma_run_unfolds(searching, second, rest);
    lemma_quiet_after_answer(HandlerStateView::Answering, rest);
    let tail = handler_run(HandlerStateView::Answering, rest);
    let answer = HandlerActionView::Answer(answer_to(query.id, outcome));
    lemma_calls_unfold(answer, tail);
    lemma_calls_unfold(HandlerActionView::Search(query.query), seq![answer] + tail);
    assert(seq![query.query] + Seq::<Seq<char>>::empty() =~= seq![query.query]);
    assert(seq![answer_to(query.id, outcome)] + Seq::<InlineAnswerView>::empty() =~= seq![
        answer_to(query.id, outcome),
    ]);
}

/// One step in the handling of an inline query.
pub fn handle_inline(state: HandlerState, event: HandlerEvent) -> (next: (
    HandlerState,
    HandlerAction,
))
    ensures
        (next.0@, next.1@) == handler_step(state@, event@),
{
    match (state, event) {
        (HandlerState::Idle, HandlerEvent::Received(query)) => {
            if query.query.as_str().is_empty() {
                (HandlerState::Finished, HandlerAction::Finish)
            } else {
                (HandlerState::Searching { query_id: query.id }, HandlerAction::Search(query.query))
            }
        },
        (HandlerState::Searching { query_id }, HandlerEvent::Searched(outcome)) => {
            let results: Vec<InlineQueryResult> = match outcome {
                Ok(found) => Vec::from(found),
                Err(_) => Vec::new(),
            };
            let answer = InlineAnswer {
                inline_query_id: query_id,
                results,
                cache_time: ANSWER_CACHE_TIME,
            };
            assert(answer@.results =~= answer_to(query_id@, outcome_view(outcome)).results);
            (HandlerState::Answering, HandlerAction::Answer(answer))
        },
        _ => (HandlerState::Finished, HandlerAction::Finish),
    }
}

} // verus!
