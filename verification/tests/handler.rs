use risibot::handlers::{
    handle_inline, HandlerAction, HandlerEvent, HandlerState, InlineAnswer, InlineQuery,
    ANSWER_CACHE_TIME,
};
use risibot::inline::{InlineMedia, InlineQueryResult};
use risibot::risibank::{RisibankError, RisibankSearchResult, Sticker};

fn query(id: &str, text: &str) -> InlineQuery {
    InlineQuery { id: id.to_string(), query: text.to_string() }
}

fn sticker(id: u64, ext: &str, link: &str) -> Sticker {
    Sticker { risibank_link: link.to_string(), id, ext: ext.to_string() }
}

fn empty_answer(id: &str) -> InlineAnswer {
    InlineAnswer { inline_query_id: id.to_string(), results: vec![], cache_time: 0 }
}

/// Handles `query` to the end; `outcome` is how the search ends, if one is
/// asked for, and `delivered` whether the answer gets through. Returns the
/// searches and the answers that were asked for.
fn handle(
    query: InlineQuery,
    outcome: Result<RisibankSearchResult, RisibankError>,
    delivered: bool,
) -> (Vec<String>, Vec<InlineAnswer>) {
    let mut searches = Vec::new();
    let mut answers = Vec::new();
    let mut outcome = Some(outcome);
    let mut state = HandlerState::Idle;
    let mut event = HandlerEvent::Received(query);
    loop {
        let (next, action) = handle_inline(state, event);
        state = next;
        event = match action {
            HandlerAction::Search(text) => {
                searches.push(text);
                HandlerEvent::Searched(outcome.take().expect("one search per query"))
            }
            HandlerAction::Answer(answer) => {
                answers.push(answer);
                HandlerEvent::Answered { delivered }
            }
            HandlerAction::Finish => {
                assert_eq!(state, HandlerState::Finished);
                return (searches, answers);
            }
        };
    }
}

#[test]
fn answers_are_never_cached() {
    assert_eq!(ANSWER_CACHE_TIME, 0);
}

#[test]
fn happy_path_with_mixed_media() {
    let found = RisibankSearchResult {
        stickers: vec![sticker(1, "jpg", "https://r/1.jpg"), sticker(2, "gif", "https://r/2.gif")],
    };
    let (searches, answers) = handle(query("Q1", "boomer"), Ok(found), true);
    assert_eq!(searches, vec!["boomer".to_string()]);
    assert_eq!(
        answers,
        vec![InlineAnswer {
            inline_query_id: "Q1".to_string(),
            results: vec![
                InlineQueryResult::Photo(InlineMedia {
                    id: "1".to_string(),
                    media_url: "https://r/1.jpg".to_string(),
                    thumb_url: "https://r/1.jpg".to_string(),
                }),
                InlineQueryResult::Gif(InlineMedia {
                    id: "2".to_string(),
                    media_url: "https://r/2.gif".to_string(),
                    thumb_url: "https://r/2.gif".to_string(),
                }),
            ],
            cache_time: 0,
        }]
    );
}

#[test]
fn empty_query_makes_no_call() {
    let (searches, answers) =
        handle(query("Q2", ""), Ok(RisibankSearchResult { stickers: vec![] }), true);
    assert_eq!(searches, Vec::<String>::new());
    assert_eq!(answers, vec![]);

    let (state, action) = handle_inline(HandlerState::Idle, HandlerEvent::Received(query("Q2", "")));
    assert_eq!(state, HandlerState::Finished);
    assert_eq!(action, HandlerAction::Finish);
}

#[test]
fn blank_query_is_not_empty() {
    let (searches, answers) =
        handle(query("Q9", " "), Ok(RisibankSearchResult { stickers: vec![] }), true);
    assert_eq!(searches, vec![" ".to_string()]);
    assert_eq!(answers, vec![empty_answer("Q9")]);
}

#[test]
fn rate_limited_search_is_answered_with_nothing() {
    let (searches, answers) = handle(query("Q3", "x"), Err(RisibankError::RateLimit), true);
    assert_eq!(searches, vec!["x".to_string()]);
    assert_eq!(answers, vec![empty_answer("Q3")]);
}

#[test]
fn every_catalog_error_is_answered_once_with_nothing() {
    let errors = vec![
        RisibankError::Transport("connection reset".to_string()),
        RisibankError::Transport(String::new()),
        RisibankError::RateLimit,
        RisibankError::InvalidResponse("Unexpected status code: 500 Internal Server Error".to_string()),
        RisibankError::InvalidResponse("expected value at line 1 column 1".to_string()),
    ];
    for error in errors {
        for delivered in [true, false] {
            let (searches, answers) = handle(query("Q-77", "issou"), Err(error.clone()), delivered);
            assert_eq!(searches, vec!["issou".to_string()]);
            assert_eq!(answers, vec![empty_answer("Q-77")]);
        }
    }
}

#[test]
fn empty_result_set_is_answered_with_nothing() {
    let (searches, answers) =
        handle(query("Q5", "rien"), Ok(RisibankSearchResult { stickers: vec![] }), true);
    assert_eq!(searches, vec!["rien".to_string()]);
    assert_eq!(answers, vec![empty_answer("Q5")]);
}

#[test]
fn one_sticker_after_retries_gives_a_one_result_reply() {
    let found = RisibankSearchResult { stickers: vec![sticker(9, "png", "https://r/9.png")] };
    let (_, answers) = handle(query("Q6", "x"), Ok(found), true);
    assert_eq!(answers.len(), 1);
    assert_eq!(answers[0].results.len(), 1);
    assert_eq!(answers[0].inline_query_id, "Q6");
}

#[test]
fn long_result_set_is_cut_in_the_answer() {
    let mut stickers = Vec::new();
    for id in 1..=20u64 {
        stickers.push(sticker(id, "jpg", "https://r/x.jpg"));
    }
    let (_, answers) = handle(query("Q7", "x"), Ok(RisibankSearchResult { stickers }), true);
    assert_eq!(answers.len(), 1);
    let ids: Vec<String> = answers[0]
        .results
        .iter()
        .map(|result| match result {
            InlineQueryResult::Photo(media) => media.id.clone(),
            InlineQueryResult::Gif(_) => panic!("a jpg is no animation"),
        })
        .collect();
    let expected: Vec<String> = (1..=15).map(|id: u64| id.to_string()).collect();
    assert_eq!(ids, expected);
}

#[test]
fn failed_submission_is_not_repeated() {
    let (state, action) = handle_inline(HandlerState::Answering, HandlerEvent::Answered { delivered: false });
    assert_eq!(state, HandlerState::Finished);
    assert_eq!(action, HandlerAction::Finish);
    let (state, action) = handle_inline(HandlerState::Answering, HandlerEvent::Answered { delivered: true });
    assert_eq!(state, HandlerState::Finished);
    assert_eq!(action, HandlerAction::Finish);
}

#[test]
fn steps_of_a_search() {
    let (state, action) =
        handle_inline(HandlerState::Idle, HandlerEvent::Received(query("Q1", "boomer")));
    assert_eq!(state, HandlerState::Searching { query_id: "Q1".to_string() });
    assert_eq!(action, HandlerAction::Search("boomer".to_string()));

    let (state, action) =
        handle_inline(state, HandlerEvent::Searched(Err(RisibankError::RateLimit)));
    assert_eq!(state, HandlerState::Answering);
    assert_eq!(action, HandlerAction::Answer(empty_answer("Q1")));
}

#[test]
fn events_out_of_turn_end_the_handling() {
    let out_of_turn = vec![
        (HandlerState::Idle, HandlerEvent::Searched(Err(RisibankError::RateLimit))),
        (HandlerState::Idle, HandlerEvent::Answered { delivered: true }),
        (
            HandlerState::Searching { query_id: "Q1".to_string() },
            HandlerEvent::Received(query("Q2", "again")),
        ),
        (
            HandlerState::Searching { query_id: "Q1".to_string() },
            HandlerEvent::Answered { delivered: true },
        ),
        (HandlerState::Answering, HandlerEvent::Received(query("Q2", "again"))),
        (HandlerState::Answering, HandlerEvent::Searched(Err(RisibankError::RateLimit))),
        (HandlerState::Finished, HandlerEvent::Received(query("Q2", "again"))),
        (
            HandlerState::Finished,
            HandlerEvent::Searched(Ok(RisibankSearchResult { stickers: vec![] })),
        ),
        (HandlerState::Finished, HandlerEvent::Answered { delivered: false }),
    ];
    for (state, event) in out_of_turn {
        let (next, action) = handle_inline(state, event);
        assert_eq!(next, HandlerState::Finished);
        assert_eq!(action, HandlerAction::Finish);
    }
}

#[test]
fn any_order_of_events_gives_one_search_and_one_answer_at_most() {
    let make = |kind: u8| match kind {
        0 => HandlerEvent::Received(query("Q1", "boomer")),
        1 => HandlerEvent::Received(query("Q2", "")),
        2 => HandlerEvent::Searched(Err(RisibankError::RateLimit)),
        3 => HandlerEvent::Searched(Ok(RisibankSearchResult {
            stickers: vec![sticker(1, "gif", "https://r/1.gif")],
        })),
        _ => HandlerEvent::Answered { delivered: true },
    };
    for a in 0..5u8 {
        for b in 0..5u8 {
            for c in 0..5u8 {
                for d in 0..5u8 {
                    let mut state = HandlerState::Idle;
                    let mut searches = 0;
                    let mut answers = 0;
                    for kind in [a, b, c, d] {
                        let (next, action) = handle_inline(state, make(kind));
                        state = next;
                        match action {
                            HandlerAction::Search(text) => {
                                assert!(!text.is_empty());
                                searches += 1;
                            }
                            HandlerAction::Answer(answer) => {
                                assert_eq!(answer.inline_query_id, "Q1");
                                assert_eq!(answer.cache_time, 0);
                                answers += 1;
                            }
                            HandlerAction::Finish => {}
                        }
                    }
                    assert!(searches <= 1);
                    assert!(answers <= 1);
                    assert!(answers <= searches);
                }
            }
        }
    }
}
