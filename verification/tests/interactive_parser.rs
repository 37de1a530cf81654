use hvtag::tagger::interactive_parser::{
    build_preference, choice_of, count_failures, has_low_confidence, needs_user_input, parse_all,
    preview_row, should_ask, step, summarize, test_strategy, SelectorAction, SelectorEvent, SelectorState,
    StrategyChoice, PREVIEW_ROWS,
};
use hvtag::tagger::track_parser::TrackParsingPreference;

fn names(v: &[&str]) -> Vec<String> {
    v.iter().map(|s| s.to_string()).collect()
}

fn outcomes(failures: usize, successes: usize) -> Vec<Option<u32>> {
    let mut v = vec![None; failures];
    for i in 0..successes {
        v.push(Some(i as u32 % 999 + 1));
    }
    v
}

#[test]
fn strategy_is_tested_on_every_name() {
    let pref = TrackParsingPreference {
        strategy_name: "asian_kanji_episode".to_string(),
        custom_delimiter: None,
        use_asian_conversion: true,
        asian_format_type: Some("kanji_episode".to_string()),
    };
    let batch = names(&["\u{7B2C}01\u{8A71}.mp3", "\u{7B2C}\u{FF12}\u{8A71}.mp3", "03 - c.mp3", "bonus.mp3"]);
    assert_eq!(test_strategy(&batch, &pref), vec![Some(1), Some(2), Some(3), None]);
    assert_eq!(test_strategy(&[], &pref), Vec::<Option<u32>>::new());
}

#[test]
fn automatic_parsing_of_a_batch() {
    let batch = names(&["01 - a.mp3", "x.mp3", "CD1-07.mp3"]);
    assert_eq!(parse_all(&batch), vec![Some(1), None, Some(7)]);
}

#[test]
fn failures_are_counted() {
    assert_eq!(count_failures(&[]), 0);
    assert_eq!(count_failures(&[None, Some(1), None]), 2);
    assert_eq!(count_failures(&outcomes(7, 13)), 7);
}

#[test]
fn confidence_is_low_above_thirty_percent_of_failures() {
    assert!(!needs_user_input(&[]));
    // exactly 30% is tolerated
    assert!(!needs_user_input(&outcomes(3, 7)));
    assert!(!needs_user_input(&outcomes(30, 70)));
    // just above
    assert!(needs_user_input(&outcomes(31, 69)));
    assert!(needs_user_input(&outcomes(4, 6)));
    assert!(needs_user_input(&outcomes(1, 2)));
    assert!(needs_user_input(&outcomes(1, 0)));
    // a single irregular name in a batch of four is tolerated
    assert!(!needs_user_input(&outcomes(1, 3)));
    assert!(!needs_user_input(&outcomes(0, 5)));
}

#[test]
fn low_confidence_of_file_names() {
    assert!(!has_low_confidence(&names(&["01 a.mp3", "02 b.mp3", "03 c.mp3", "bonus.mp3"])));
    assert!(has_low_confidence(&names(&["\u{7B2C}01\u{8A71}.mp3", "\u{7B2C}02\u{8A71}.mp3", "03 c.mp3"])));
    assert!(!has_low_confidence(&[]));
}

#[test]
fn preview_shows_ten_rows_and_counts_the_whole_batch() {
    let s = summarize(&[]);
    assert_eq!((s.shown, s.hidden, s.successes, s.failures), (0, 0, 0, 0));
    let s = summarize(&outcomes(2, 8));
    assert_eq!((s.shown, s.hidden, s.successes, s.failures), (10, 0, 8, 2));
    let mut batch = outcomes(0, 10);
    batch.extend(outcomes(5, 20));
    let s = summarize(&batch);
    assert_eq!((s.shown, s.hidden, s.successes, s.failures), (10, 25, 30, 5));
    let s = summarize(&outcomes(3, 0));
    assert_eq!((s.shown, s.hidden, s.successes, s.failures), (3, 0, 0, 3));
    assert_eq!(PREVIEW_ROWS, 10);
}

#[test]
fn preview_rows() {
    assert_eq!(preview_row(Some(7), "07 - a.mp3"), "  [7] 07 - a.mp3");
    assert_eq!(preview_row(Some(120), "x"), "  [120] x");
    assert_eq!(preview_row(None, "bonus.mp3"), "  [??] bonus.mp3");
}

#[test]
fn menu_has_six_entries() {
    assert_eq!(choice_of(0), Some(StrategyChoice::AsianFullwidth));
    assert_eq!(choice_of(1), Some(StrategyChoice::AsianBrackets));
    assert_eq!(choice_of(2), Some(StrategyChoice::KanjiEpisode));
    assert_eq!(choice_of(3), Some(StrategyChoice::CustomDelimiter));
    assert_eq!(choice_of(4), Some(StrategyChoice::FirstNumber));
    assert_eq!(choice_of(5), Some(StrategyChoice::Skip));
    assert_eq!(choice_of(6), None);
    assert_eq!(choice_of(usize::MAX), None);
}

fn fields(p: &TrackParsingPreference) -> (&str, Option<&str>, bool, Option<&str>) {
    (
        p.strategy_name.as_str(),
        p.custom_delimiter.as_deref(),
        p.use_asian_conversion,
        p.asian_format_type.as_deref(),
    )
}

#[test]
fn preferences_of_the_menu_entries() {
    let p = build_preference(StrategyChoice::AsianFullwidth, "").unwrap();
    assert_eq!(fields(&p), ("asian_fullwidth", None, true, Some("fullwidth")));
    let p = build_preference(StrategyChoice::AsianBrackets, "ignored").unwrap();
    assert_eq!(fields(&p), ("asian_brackets", None, true, Some("asian_brackets")));
    let p = build_preference(StrategyChoice::KanjiEpisode, "").unwrap();
    assert_eq!(fields(&p), ("asian_kanji_episode", None, true, Some("kanji_episode")));
    let p = build_preference(StrategyChoice::CustomDelimiter, " - ").unwrap();
    assert_eq!(fields(&p), ("custom_delimiter", Some(" - "), false, None));
    let p = build_preference(StrategyChoice::FirstNumber, "").unwrap();
    assert_eq!(fields(&p), ("first_number", None, false, None));
    assert!(build_preference(StrategyChoice::Skip, "").is_none());
}

#[test]
fn empty_custom_delimiter_is_refused() {
    assert!(build_preference(StrategyChoice::CustomDelimiter, "").is_none());
    let (state, action) = step(SelectorState::AwaitingDelimiter, SelectorEvent::DelimiterEntered(String::new()));
    assert!(matches!(state, SelectorState::AwaitingDelimiter));
    assert_eq!(action, SelectorAction::AskDelimiter);
}

#[test]
fn skip_aborts_the_work() {
    let (state, action) = step(SelectorState::NeedsDecision, SelectorEvent::Chosen(StrategyChoice::Skip));
    assert!(matches!(state, SelectorState::Aborted));
    assert_eq!(action, SelectorAction::SkipWork);
}

#[test]
fn confirmed_choice_is_saved() {
    let (state, action) = step(SelectorState::NeedsDecision, SelectorEvent::Chosen(StrategyChoice::FirstNumber));
    assert_eq!(action, SelectorAction::ShowPreview);
    let (state, action) = step(state, SelectorEvent::Answered(true));
    assert_eq!(action, SelectorAction::SavePreference);
    match state {
        SelectorState::Confirmed(p) => assert_eq!(fields(&p), ("first_number", None, false, None)),
        other => panic!("unexpected state: {:?}", other),
    }
}

#[test]
fn declined_choice_is_discarded() {
    let (state, _) = step(SelectorState::NeedsDecision, SelectorEvent::Chosen(StrategyChoice::AsianBrackets));
    let (state, action) = step(state, SelectorEvent::Answered(false));
    assert!(matches!(state, SelectorState::AcceptedWithoutConfirmation));
    assert_eq!(action, SelectorAction::ContinueWithoutPreference);
}

#[test]
fn custom_delimiter_is_asked_for_then_previewed() {
    let (state, action) = step(SelectorState::NeedsDecision, SelectorEvent::Chosen(StrategyChoice::CustomDelimiter));
    assert!(matches!(state, SelectorState::AwaitingDelimiter));
    assert_eq!(action, SelectorAction::AskDelimiter);
    let (state, action) = step(state, SelectorEvent::DelimiterEntered("wa".to_string()));
    assert_eq!(action, SelectorAction::ShowPreview);
    match &state {
        SelectorState::AwaitingConfirmation(p) => {
            assert_eq!(fields(p), ("custom_delimiter", Some("wa"), false, None))
        }
        other => panic!("unexpected state: {:?}", other),
    }
    let (state, action) = step(state, SelectorEvent::Answered(true));
    assert_eq!(action, SelectorAction::SavePreference);
    assert!(matches!(state, SelectorState::Confirmed(_)));
}

#[test]
fn finished_selection_ignores_further_answers() {
    let events = || {
        vec![
            SelectorEvent::Chosen(StrategyChoice::FirstNumber),
            SelectorEvent::Chosen(StrategyChoice::Skip),
            SelectorEvent::DelimiterEntered("x".to_string()),
            SelectorEvent::Answered(true),
            SelectorEvent::Answered(false),
        ]
    };
    for event in events() {
        let (state, action) = step(SelectorState::Aborted, event);
        assert!(matches!(state, SelectorState::Aborted));
        assert_eq!(action, SelectorAction::Ignore);
    }
    for event in events() {
        let (state, action) = step(SelectorState::AcceptedWithoutConfirmation, event);
        assert!(matches!(state, SelectorState::AcceptedWithoutConfirmation));
        assert_eq!(action, SelectorAction::Ignore);
    }
    for event in events() {
        let p = build_preference(StrategyChoice::FirstNumber, "").unwrap();
        let (state, action) = step(SelectorState::Confirmed(p), event);
        assert!(matches!(state, SelectorState::Confirmed(_)));
        assert_eq!(action, SelectorAction::Ignore);
    }
}

#[test]
fn answers_that_do_not_belong_to_the_state_change_nothing() {
    let (state, action) = step(SelectorState::NeedsDecision, SelectorEvent::Answered(true));
    assert!(matches!(state, SelectorState::NeedsDecision));
    assert_eq!(action, SelectorAction::Ignore);
    let (state, action) = step(SelectorState::AwaitingDelimiter, SelectorEvent::Chosen(StrategyChoice::Skip));
    assert!(matches!(state, SelectorState::AwaitingDelimiter));
    assert_eq!(action, SelectorAction::Ignore);
    let p = build_preference(StrategyChoice::FirstNumber, "").unwrap();
    let (state, action) = step(SelectorState::AwaitingConfirmation(p), SelectorEvent::DelimiterEntered("x".to_string()));
    assert!(matches!(state, SelectorState::AwaitingConfirmation(_)));
    assert_eq!(action, SelectorAction::Ignore);
}

#[test]
fn operator_is_asked_only_without_a_stored_preference() {
    let stored = build_preference(StrategyChoice::FirstNumber, "").unwrap();
    let irregular = names(&["\u{7B2C}01\u{8A71}.mp3", "\u{7B2C}02\u{8A71}.mp3", "03 c.mp3"]);
    let regular = names(&["01 a.mp3", "02 b.mp3", "03 c.mp3", "bonus.mp3"]);
    assert!(should_ask(None, &irregular));
    assert!(!should_ask(Some(&stored), &irregular));
    assert!(!should_ask(None, &regular));
    assert!(!should_ask(Some(&stored), &regular));
    assert!(!should_ask(None, &[]));
}
