//! The decisions of the interactive strategy selector: when to ask,
//! what each answer means, and what the preview reports. Talking to the
//! operator is left to the caller.

use vstd::prelude::*;
use crate::file_name::{decimal_string, decimal_text};
use crate::text::joined;
use crate::tagger::track_parser::{
    parse_track_number, parse_track_number_with_preference, preferred_outcome, standard_cascade,
    strategy_named, ParsingStrategy, PreferenceModel, TrackParsingPreference,
};

verus! {

/// How many file names and preview rows are shown.
pub const PREVIEW_ROWS: usize = 10;

/// The outcomes of parsing each name with a preference.
pub open spec fn outcomes_with(names: Seq<String>, pref: PreferenceModel) -> Seq<Option<u32>> {
    Seq::new(names.len(), |i: int| preferred_outcome(names[i]@, Some(pref)))
}

/// The outcomes of the standard cascade on each name.
pub open spec fn automatic_outcomes(names: Seq<String>) -> Seq<Option<u32>> {
    Seq::new(names.len(), |i: int| standard_cascade(names[i]@))
}

/// How many of the outcomes hold no track number.
pub open spec fn failure_count(outcomes: Seq<Option<u32>>) -> nat
    decreases outcomes.len(),
{
    if outcomes.len() == 0 {
        0
    } else {
        failure_count(outcomes.drop_last()) + if outcomes.last() is None {
            1nat
        } else {
            0nat
        }
    }
}

/// How many of the outcomes hold a track number.
pub open spec fn success_count(outcomes: Seq<Option<u32>>) -> nat {
    (outcomes.len() - failure_count(outcomes)) as nat
}

/// Confidence is low where more than 30% of the names have no track
/// number.
pub open spec fn is_low_confidence(outcomes: Seq<Option<u32>>) -> bool {
    failure_count(outcomes) * 10 > outcomes.len() * 3
}

/// There are no more failures than outcomes.
pub proof fn failures_are_bounded(outcomes: Seq<Option<u32>>)
    ensures
        failure_count(outcomes) <= outcomes.len(),
    decreases outcomes.len(),
{
    if outcomes.len() > 0 {
        failures_are_bounded(outcomes.drop_last());
    }
}

/// Tests a strategy on the given file names: the track number that
/// parsing with the preference finds for each name, in order.
pub fn test_strategy(filenames: &[String], preference: &TrackParsingPreference) -> (r: Vec<
    Option<u32>,
>)
    ensures
        r@ == outcomes_with(filenames@, preference@),
{
    let mut r: Vec<Option<u32>> = Vec::new();
    let mut i: usize = 0;
    while i < filenames.len()
        invariant
            i <= filenames.len(),
            r@ == outcomes_with(filenames@, preference@).take(i as int),
        decreases filenames.len() - i,
    {
        let found = parse_track_number_with_preference(filenames[i].as_str(), Some(preference));
        r.push(found);
        assert(r@ =~= outcomes_with(filenames@, preference@).take(i + 1));
        i += 1;
    }
    assert(outcomes_with(filenames@, preference@).take(filenames@.len() as int) == outcomes_with(
        filenames@,
        preference@,
    ));
    r
}

/// Parses every file name with the standard cascade.
pub fn parse_all(filenames: &[String]) -> (r: Vec<Option<u32>>)
    ensures
        r@ == automatic_outcomes(filenames@),
{
    let mut r: Vec<Option<u32>> = Vec::new();
    let mut i: usize = 0;
    while i < filenames.len()
        invariant
            i <= filenames.len(),
            r@ == automatic_outcomes(filenames@).take(i as int),
        decreases filenames.len() - i,
    {
        let found = parse_track_number(filenames[i].as_str());
        r.push(found);
        assert(r@ =~= automatic_outcomes(filenames@).take(i + 1));
        i += 1;
    }
    assert(automatic_outcomes(filenames@).take(filenames@.len() as int) == automatic_outcomes(
        filenames@,
    ));
    r
}

/// Counts the outcomes without a track number.
pub fn count_failures(outcomes: &[Option<u32>]) -> (r: usize)
    ensures
        r == failure_count(outcomes@),
{
    let mut r: usize = 0;
    let mut i: usize = 0;
    assert(outcomes@.take(0) =~= Seq::<Option<u32>>::empty());
    while i < outcomes.len()
        invariant
            i <= outcomes.len(),
            r <= i,
            r == failure_count(outcomes@.take(i as int)),
        decreases outcomes.len() - i,
    {
        assert(outcomes@.take(i + 1).drop_last() == outcomes@.take(i as int));
        if outcomes[i].is_none() {
            r += 1;
        }
        i += 1;
    }
    assert(outcomes@.take(outcomes@.len() as int) == outcomes@);
    r
}

/// Whether the operator has to be asked: more than 30% of the outcomes
/// hold no track number.
pub fn needs_user_input(outcomes: &[Option<u32>]) -> (r: bool)
    ensures
        r == is_low_confidence(outcomes@),
{
    let failures = count_failures(outcomes);
    (failures as u128) * 10 > (outcomes.len() as u128) * 3
}

/// Whether automatic parsing of a work's file names has low confidence.
pub fn has_low_confidence(filenames: &[String]) -> (r: bool)
    ensures
        r == is_low_confidence(automatic_outcomes(filenames@)),
{
    let outcomes = parse_all(filenames);
    needs_user_input(outcomes.as_slice())
}

/// Whether the operator is asked about a work: no preference is stored
/// for it, and automatic parsing of its file names has low confidence.
pub fn should_ask(stored: Option<&TrackParsingPreference>, filenames: &[String]) -> (r: bool)
    ensures
        r == (stored is None && is_low_confidence(automatic_outcomes(filenames@))),
{
    match stored {
        Some(_) => false,
        None => has_low_confidence(filenames),
    }
}

/// What the preview reports about a batch of outcomes.
#[derive(Debug, Clone, Copy, PartialEq, Eq, Structural)]
pub struct PreviewSummary {
    /// How many rows are displayed: the first ten at most.
    pub shown: usize,
    /// How many rows are left out of the display.
    pub hidden: usize,
    /// How many names of the whole batch have a track number.
    pub successes: usize,
    /// How many names of the whole batch have none.
    pub failures: usize,
}

/// The summary of a batch: at most ten rows are shown, and the counts
/// cover the whole batch, the rows left out included.
pub open spec fn summary_of(outcomes: Seq<Option<u32>>) -> PreviewSummary {
    PreviewSummary {
        shown: if outcomes.len() <= PREVIEW_ROWS {
            outcomes.len() as usize
        } else {
            PREVIEW_ROWS
        },
        hidden: if outcomes.len() <= PREVIEW_ROWS {
            0
        } else {
            (outcomes.len() - PREVIEW_ROWS) as usize
        },
        successes: success_count(outcomes) as usize,
        failures: failure_count(outcomes) as usize,
    }
}

/// Summarizes the outcomes of a strategy for the preview.
pub fn summarize(outcomes: &[Option<u32>]) -> (r: PreviewSummary)
    ensures
        r == summary_of(outcomes@),
        r.shown + r.hidden == outcomes@.len(),
        r.successes + r.failures == outcomes@.len(),
{
    let total = outcomes.len();
    let failures = count_failures(outcomes);
    proof {
        failures_are_bounded(outcomes@);
    }
    let shown = if total <= PREVIEW_ROWS {
        total
    } else {
        PREVIEW_ROWS
    };
    PreviewSummary { shown, hidden: total - shown, successes: total - failures, failures }
}

/// The text of one preview row.
pub open spec fn row_text(outcome: Option<u32>, filename: Seq<char>) -> Seq<char> {
    match outcome {
        Some(n) => "  ["@ + decimal_text(n as nat) + "] "@ + filename,
        None => "  [??] "@ + filename,
    }
}

/// Writes one row of the preview: the track number, or `??` where it
/// is unknown, and the file name.
pub fn preview_row(outcome: Option<u32>, filename: &str) -> (r: String)
    ensures
        r@ == row_text(outcome, filename@),
{
    match outcome {
        Some(n) => {
            let mut r = String::from_str("  [");
            r.append(decimal_string(n as u64).as_str());
            r.append("] ");
            r.append(filename);
            r
        },
        None => joined("  [??] ", filename),
    }
}

/// The entries of the strategy menu, in the order of display.
#[derive(Debug, Clone, Copy, PartialEq, Eq, Structural)]
pub enum StrategyChoice {
    /// Asian full-width numbers.
    AsianFullwidth,
    /// Asian brackets.
    AsianBrackets,
    /// Kanji episode markers.
    KanjiEpisode,
    /// A delimiter that the operator types.
    CustomDelimiter,
    /// The first number found.
    FirstNumber,
    /// Skip this folder.
    Skip,
}

/// The menu entry at a position.
pub open spec fn choice_at(index: nat) -> Option<StrategyChoice> {
    if index == 0 {
        Some(StrategyChoice::AsianFullwidth)
    } else if index == 1 {
        Some(StrategyChoice::AsianBrackets)
    } else if index == 2 {
        Some(StrategyChoice::KanjiEpisode)
    } else if index == 3 {
        Some(StrategyChoice::CustomDelimiter)
    } else if index == 4 {
        Some(StrategyChoice::FirstNumber)
    } else if index == 5 {
        Some(StrategyChoice::Skip)
    } else {
        None
    }
}

/// The menu entry at a position; none beyond the sixth.
pub fn choice_of(index: usize) -> (r: Option<StrategyChoice>)
    ensures
        r == choice_at(index as nat),
{
    if index == 0 {
        Some(StrategyChoice::AsianFullwidth)
    } else if index == 1 {
        Some(StrategyChoice::AsianBrackets)
    } else if index == 2 {
        Some(StrategyChoice::KanjiEpisode)
    } else if index == 3 {
        Some(StrategyChoice::CustomDelimiter)
    } else if index == 4 {
        Some(StrategyChoice::FirstNumber)
    } else if index == 5 {
        Some(StrategyChoice::Skip)
    } else {
        None
    }
}

/// The preference that a choice stands for. Skipping stands for none,
/// and so does a custom delimiter that is empty.
pub open spec fn candidate(choice: StrategyChoice, delimiter: Seq<char>) -> Option<PreferenceModel> {
    match choice {
        StrategyChoice::AsianFullwidth => Some(
            PreferenceModel {
                strategy_name: "asian_fullwidth"@,
                custom_delimiter: None,
                use_asian_conversion: true,
                asian_format_type: Some("fullwidth"@),
            },
        ),
        StrategyChoice::AsianBrackets => Some(
            PreferenceModel {
                strategy_name: "asian_brackets"@,
                custom_delimiter: None,
                use_asian_conversion: true,
                asian_format_type: Some("asian_brackets"@),
            },
        ),
        StrategyChoice::KanjiEpisode => Some(
            PreferenceModel {
                strategy_name: "asian_kanji_episode"@,
                custom_delimiter: None,
                use_asian_conversion: true,
                asian_format_type: Some("kanji_episode"@),
            },
        ),
        StrategyChoice::CustomDelimiter => if delimiter.len() > 0 {
            Some(
                PreferenceModel {
                    strategy_name: "custom_delimiter"@,
                    custom_delimiter: Some(delimiter),
                    use_asian_conversion: false,
                    asian_format_type: None,
                },
            )
        } else {
            None
        },
        StrategyChoice::FirstNumber => Some(
            PreferenceModel {
                strategy_name: "first_number"@,
                custom_delimiter: None,
                use_asian_conversion: false,
                asian_format_type: None,
            },
        ),
        StrategyChoice::Skip => None,
    }
}

/// Builds the candidate preference of a menu choice. `delimiter` is
/// read for the custom delimiter only, where an empty one is refused.
pub fn build_preference(choice: StrategyChoice, delimiter: &str) -> (r: Option<
    TrackParsingPreference,
>)
    ensures
        match r {
            Some(p) => candidate(choice, delimiter@) == Some(p@),
            None => candidate(choice, delimiter@) is None,
        },
{
    match choice {
        StrategyChoice::AsianFullwidth => Some(
            TrackParsingPreference {
                strategy_name: String::from_str("asian_fullwidth"),
                custom_delimiter: None,
                use_asian_conversion: true,
                asian_format_type: Some(String::from_str("fullwidth")),
            },
        ),
        StrategyChoice::AsianBrackets => Some(
            TrackParsingPreference {
                strategy_name: String::from_str("asian_brackets"),
                custom_delimiter: None,
                use_asian_conversion: true,
                asian_format_type: Some(String::from_str("asian_brackets")),
            },
        ),
        StrategyChoice::KanjiEpisode => Some(
            TrackParsingPreference {
                strategy_name: String::from_str("asian_kanji_episode"),
                custom_delimiter: None,
                use_asian_conversion: true,
                asian_format_type: Some(String::from_str("kanji_episode")),
            },
        ),
        StrategyChoice::CustomDelimiter => {
            if delimiter.is_empty() {
                None
            } else {
                Some(
                    TrackParsingPreference {
                        strategy_name: String::from_str("custom_delimiter"),
                        custom_delimiter: Some(String::from_str(delimiter)),
                        use_asian_conversion: false,
                        asian_format_type: None,
                    },
                )
            }
        },
        StrategyChoice::FirstNumber => Some(
            TrackParsingPreference {
                strategy_name: String::from_str("first_number"),
                custom_delimiter: None,
                use_asian_conversion: false,
                asian_format_type: None,
            },
        ),
        StrategyChoice::Skip => None,
    }
}

/// Where the selection for one work stands. A work starts in
/// `NeedsDecision` and ends in `Aborted`, `AcceptedWithoutConfirmation`
/// or `Confirmed`.
#[derive(Debug)]
pub enum SelectorState {
    /// The operator has not chosen a strategy yet.
    NeedsDecision,
    /// The custom delimiter was chosen and its text is awaited.
    AwaitingDelimiter,
    /// The preview of the candidate is shown and the answer is awaited.
    AwaitingConfirmation(TrackParsingPreference),
    /// The operator skipped the work: it is not tagged in this run.
    Aborted,
    /// The operator declined the candidate: it is discarded, and the
    /// work goes on without a stored preference.
    AcceptedWithoutConfirmation,
    /// The operator confirmed the candidate, which is to be stored
    /// before any file is tagged.
    Confirmed(TrackParsingPreference),
}

/// The mathematical content of a `SelectorState`.
pub enum StateModel {
    NeedsDecision,
    AwaitingDelimiter,
    AwaitingConfirmation(PreferenceModel),
    Aborted,
    AcceptedWithoutConfirmation,
    Confirmed(PreferenceModel),
}

impl View for SelectorState {
    type V = StateModel;

    open spec fn view(&self) -> StateModel {
        match *self {
            SelectorState::NeedsDecision => StateModel::NeedsDecision,
            SelectorState::AwaitingDelimiter => StateModel::AwaitingDelimiter,
            SelectorState::AwaitingConfirmation(p) => StateModel::AwaitingConfirmation(p@),
            SelectorState::Aborted => StateModel::Aborted,
            SelectorState::AcceptedWithoutConfirmation => StateModel::AcceptedWithoutConfirmation,
            SelectorState::Confirmed(p) => StateModel::Confirmed(p@),
        }
    }
}

/// What the operator answered.
#[derive(Debug)]
pub enum SelectorEvent {
    /// An entry of the strategy menu.
    Chosen(StrategyChoice),
    /// The text typed as the custom delimiter.
    DelimiterEntered(String),
    /// Yes or no to the preview.
    Answered(bool),
}

/// The mathematical content of a `SelectorEvent`.
pub enum EventModel {
    Chosen(StrategyChoice),
    DelimiterEntered(Seq<char>),
    Answered(bool),
}

impl View for SelectorEvent {
    type V = EventModel;

    open spec fn view(&self) -> EventModel {
        match *self {
            SelectorEvent::Chosen(c) => EventModel::Chosen(c),
            SelectorEvent::DelimiterEntered(d) => EventModel::DelimiterEntered(d@),
            SelectorEvent::Answered(yes) => EventModel::Answered(yes),
        }
    }
}

/// What the caller does after a step.
#[derive(Debug, Clone, Copy, PartialEq, Eq, Structural)]
pub enum SelectorAction {
    /// Ask for the text of the delimiter, again where it was empty.
    AskDelimiter,
    /// Show the preview of the candidate and ask for confirmation.
    ShowPreview,
    /// Store the confirmed preference, then tag the files with it.
    SavePreference,
    /// Tag the files without a stored preference.
    ContinueWithoutPreference,
    /// Leave this work untagged and go on with the next.
    SkipWork,
    /// The answer does not belong to the state: nothing changes.
    Ignore,
}

/// The state that follows a state and an answer.
pub open spec fn next_state(state: StateModel, event: EventModel) -> StateModel {
    match (state, event) {
        (StateModel::NeedsDecision, EventModel::Chosen(choice)) => match choice {
            StrategyChoice::Skip => StateModel::Aborted,
            StrategyChoice::CustomDelimiter => StateModel::AwaitingDelimiter,
            _ => match candidate(choice, Seq::empty()) {
                Some(p) => StateModel::AwaitingConfirmation(p),
                None => state,
            },
        },
        (StateModel::AwaitingDelimiter, EventModel::DelimiterEntered(text)) => match candidate(
            StrategyChoice::CustomDelimiter,
            text,
        ) {
            Some(p) => StateModel::AwaitingConfirmation(p),
            None => StateModel::AwaitingDelimiter,
        },
        (StateModel::AwaitingConfirmation(p), EventModel::Answered(yes)) => if yes {
            StateModel::Confirmed(p)
        } else {
            StateModel::AcceptedWithoutConfirmation
        },
        _ => state,
    }
}

/// What the caller does after a state and an answer.
pub open spec fn action_for(state: StateModel, event: EventModel) -> SelectorAction {
    match (state, event) {
        (StateModel::NeedsDecision, EventModel::Chosen(choice)) => match choice {
            StrategyChoice::Skip => SelectorAction::SkipWork,
            StrategyChoice::CustomDelimiter => SelectorAction::AskDelimiter,
            _ => match candidate(choice, Seq::empty()) {
                Some(_) => SelectorAction::ShowPreview,
                None => SelectorAction::Ignore,
            },
        },
        (StateModel::AwaitingDelimiter, EventModel::DelimiterEntered(text)) => if text.len() > 0 {
            SelectorAction::ShowPreview
        } else {
            SelectorAction::AskDelimiter
        },
        (StateModel::AwaitingConfirmation(_), EventModel::Answered(yes)) => if yes {
            SelectorAction::SavePreference
        } else {
            SelectorAction::ContinueWithoutPreference
        },
        _ => SelectorAction::Ignore,
    }
}

impl StateModel {
    /// The selection is over.
    pub open spec fn is_terminal(self) -> bool {
        self is Aborted || self is AcceptedWithoutConfirmation || self is Confirmed
    }

    /// The preference that the state carries, if any, is valid.
    pub open spec fn is_valid(self) -> bool {
        match self {
            StateModel::AwaitingConfirmation(p) => p.is_valid(),
            StateModel::Confirmed(p) => p.is_valid(),
            _ => true,
        }
    }
}

/// Takes one step of the selection: the state that follows the
/// operator's answer, and what the caller does next.
pub fn step(state: SelectorState, event: SelectorEvent) -> (r: (SelectorState, SelectorAction))
    ensures
        r.0@ == next_state(state@, event@),
        r.1 == action_for(state@, event@),
{
    match (state, event) {
        (SelectorState::NeedsDecision, SelectorEvent::Chosen(choice)) => match choice {
            StrategyChoice::Skip => (SelectorState::Aborted, SelectorAction::SkipWork),
            StrategyChoice::CustomDelimiter => (
                SelectorState::AwaitingDelimiter,
                SelectorAction::AskDelimiter,
            ),
            _ => {
                proof {
                    reveal_strlit("");
                }
                match build_preference(choice, "") {
                    Some(p) => (SelectorState::AwaitingConfirmation(p), SelectorAction::ShowPreview),
                    None => (SelectorState::NeedsDecision, SelectorAction::Ignore),
                }
            },
        },
        (SelectorState::AwaitingDelimiter, SelectorEvent::DelimiterEntered(text)) => {
            match build_preference(StrategyChoice::CustomDelimiter, text.as_str()) {
                Some(p) => (SelectorState::AwaitingConfirmation(p), SelectorAction::ShowPreview),
                None => (SelectorState::AwaitingDelimiter, SelectorAction::AskDelimiter),
            }
        },
        (SelectorState::AwaitingConfirmation(p), SelectorEvent::Answered(yes)) => {
            if yes {
                (SelectorState::Confirmed(p), SelectorAction::SavePreference)
            } else {
                (SelectorState::AcceptedWithoutConfirmation, SelectorAction::ContinueWithoutPreference)
            }
        },
        (state, _) => (state, SelectorAction::Ignore),
    }
}

/// No way back: a step never leads from another state to
/// `NeedsDecision`.
pub proof fn no_way_back(state: StateModel, event: EventModel)
    requires
        !(state is NeedsDecision),
    ensures
        !(next_state(state, event) is NeedsDecision),
{
}

/// A choice from the menu always leaves `NeedsDecision`.
pub proof fn choice_leaves_needs_decision(choice: StrategyChoice)
    ensures
        !(next_state(StateModel::NeedsDecision, EventModel::Chosen(choice)) is NeedsDecision),
{
}

/// A selection that is over stays as it is, whatever is answered.
pub proof fn terminal_states_stay(state: StateModel, event: EventModel)
    requires
        state.is_terminal(),
    ensures
        next_state(state, event) == state,
        action_for(state, event) == SelectorAction::Ignore,
{
}

/// Each action belongs to one transition: the delimiter is asked for
/// exactly on a step into `AwaitingDelimiter`, the preview is shown
/// exactly on a step into `AwaitingConfirmation`, the preference is
/// stored exactly on the step that confirms it, and the work is skipped
/// exactly on the step that aborts.
pub proof fn actions_follow_transitions(state: StateModel, event: EventModel)
    ensures
        action_for(state, event) == SelectorAction::AskDelimiter <==> !(action_for(state, event)
            == SelectorAction::Ignore) && next_state(state, event) is AwaitingDelimiter,
        action_for(state, event) == SelectorAction::ShowPreview <==> !(action_for(state, event)
            == SelectorAction::Ignore) && next_state(state, event) is AwaitingConfirmation,
        action_for(state, event) == SelectorAction::SavePreference <==> !state.is_terminal()
            && next_state(state, event) is Confirmed,
        action_for(state, event) == SelectorAction::SkipWork <==> !state.is_terminal()
            && next_state(state, event) is Aborted,
        action_for(state, event) == SelectorAction::ContinueWithoutPreference
            <==> !state.is_terminal() && next_state(state, event) is AcceptedWithoutConfirmation,
{
}

/// The parsing strategy that a menu entry selects.
pub open spec fn strategy_for(choice: StrategyChoice) -> Option<ParsingStrategy> {
    match choice {
        StrategyChoice::AsianFullwidth => Some(ParsingStrategy::AsianFullwidth),
        StrategyChoice::AsianBrackets => Some(ParsingStrategy::AsianBrackets),
        StrategyChoice::KanjiEpisode => Some(ParsingStrategy::AsianKanjiEpisode),
        StrategyChoice::CustomDelimiter => Some(ParsingStrategy::CustomDelimiter),
        StrategyChoice::FirstNumber => Some(ParsingStrategy::FirstNumber),
        StrategyChoice::Skip => None,
    }
}

/// A candidate names the strategy of its menu entry and is valid: one
/// for a custom delimiter carries a delimiter that is not empty.
pub proof fn candidates_are_valid(choice: StrategyChoice, delimiter: Seq<char>)
    ensures
        candidate(choice, delimiter) matches Some(p) ==> p.is_valid() && Some(
            strategy_named(p.strategy_name),
        ) == strategy_for(choice),
{
    reveal_strlit("asian_brackets");
    reveal_strlit("asian_kanji_episode");
    reveal_strlit("asian_fullwidth");
    reveal_strlit("first_number");
    reveal_strlit("custom_delimiter");
    assert("asian_brackets"@.len() == 14);
    assert("asian_kanji_episode"@.len() == 19);
    assert("asian_fullwidth"@.len() == 15);
    assert("first_number"@.len() == 12);
    assert("custom_delimiter"@.len() == 16);
}

/// Every step keeps the carried preference valid.
pub proof fn valid_states_stay_valid(state: StateModel, event: EventModel)
    requires
        state.is_valid(),
    ensures
        next_state(state, event).is_valid(),
{
    match (state, event) {
        (StateModel::NeedsDecision, EventModel::Chosen(choice)) => {
            candidates_are_valid(choice, Seq::empty());
        },
        (StateModel::AwaitingDelimiter, EventModel::DelimiterEntered(text)) => {
            candidates_are_valid(StrategyChoice::CustomDelimiter, text);
        },
        _ => {},
    }
}

} // verus!
