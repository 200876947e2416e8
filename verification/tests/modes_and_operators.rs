use vim::Direction;
use vim::Mode;
use vim::Object;
use vim::Operator;
use vim::RecordedSelection;
use vim::SearchState;
use vim::SurroundsType;

#[test]
fn default_mode_is_normal() {
    assert_eq!(Mode::default(), Mode::Normal);
}

#[test]
fn visual_modes_are_visual() {
    assert!(!Mode::Normal.is_visual());
    assert!(!Mode::Insert.is_visual());
    assert!(!Mode::Replace.is_visual());
    assert!(Mode::Visual.is_visual());
    assert!(Mode::VisualLine.is_visual());
    assert!(Mode::VisualBlock.is_visual());
}

#[test]
fn mode_labels() {
    assert_eq!(Mode::Normal.label(), "NORMAL");
    assert_eq!(Mode::Insert.label(), "INSERT");
    assert_eq!(Mode::Replace.label(), "REPLACE");
    assert_eq!(Mode::Visual.label(), "VISUAL");
    assert_eq!(Mode::VisualLine.label(), "VISUAL LINE");
    assert_eq!(Mode::VisualBlock.label(), "VISUAL BLOCK");
}

#[test]
fn operator_ids() {
    assert_eq!(Operator::Object { around: false }.id(), "i");
    assert_eq!(Operator::Object { around: true }.id(), "a");
    assert_eq!(Operator::Change.id(), "c");
    assert_eq!(Operator::Delete.id(), "d");
    assert_eq!(Operator::Yank.id(), "y");
    assert_eq!(Operator::Replace.id(), "r");
    assert_eq!(Operator::Digraph { first_char: None }.id(), "^K");
    assert_eq!(Operator::FindForward { before: false }.id(), "f");
    assert_eq!(Operator::FindForward { before: true }.id(), "t");
    assert_eq!(Operator::FindBackward { after: false }.id(), "F");
    assert_eq!(Operator::FindBackward { after: true }.id(), "T");
    assert_eq!(Operator::AddSurrounds { target: None }.id(), "ys");
    assert_eq!(Operator::ChangeSurrounds { target: None }.id(), "cs");
    assert_eq!(Operator::DeleteSurrounds.id(), "ds");
    assert_eq!(Operator::Mark.id(), "m");
    assert_eq!(Operator::Jump { line: true }.id(), "'");
    assert_eq!(Operator::Jump { line: false }.id(), "`");
    assert_eq!(Operator::Indent.id(), ">");
    assert_eq!(Operator::Outdent.id(), "<");
    assert_eq!(Operator::Uppercase.id(), "gU");
    assert_eq!(Operator::Lowercase.id(), "gu");
    assert_eq!(Operator::OppositeCase.id(), "g~");
    assert_eq!(Operator::Register.id(), "\"");
    assert_eq!(Operator::RecordRegister.id(), "q");
    assert_eq!(Operator::ReplayRegister.id(), "@");
    assert_eq!(Operator::ToggleComments.id(), "gc");
}

#[test]
fn is_waiting_is_a_pure_function_of_operator_and_mode() {
    let op = Operator::AddSurrounds { target: None };
    assert_eq!(op.is_waiting(Mode::Normal), op.is_waiting(Mode::Normal));
    assert!(!op.is_waiting(Mode::Normal));
    assert!(op.is_waiting(Mode::Visual));
    assert!(op.is_waiting(Mode::VisualLine));
    assert!(op.is_waiting(Mode::VisualBlock));
    assert!(
        Operator::AddSurrounds {
            target: Some(SurroundsType::Motion)
        }
        .is_waiting(Mode::Normal)
    );
}

#[test]
fn immediate_operators_do_not_wait() {
    for mode in [Mode::Normal, Mode::Insert, Mode::Visual] {
        assert!(!Operator::Change.is_waiting(mode));
        assert!(!Operator::Delete.is_waiting(mode));
        assert!(!Operator::Yank.is_waiting(mode));
        assert!(!Operator::Indent.is_waiting(mode));
        assert!(!Operator::Outdent.is_waiting(mode));
        assert!(!Operator::Lowercase.is_waiting(mode));
        assert!(!Operator::Uppercase.is_waiting(mode));
        assert!(!Operator::OppositeCase.is_waiting(mode));
        assert!(!Operator::ToggleComments.is_waiting(mode));
        assert!(!Operator::Object { around: true }.is_waiting(mode));
        assert!(!Operator::ChangeSurrounds { target: None }.is_waiting(mode));
    }
}

#[test]
fn qualifier_operators_wait_in_every_mode() {
    for mode in [Mode::Normal, Mode::Insert, Mode::Visual] {
        assert!(Operator::FindForward { before: true }.is_waiting(mode));
        assert!(Operator::FindForward { before: false }.is_waiting(mode));
        assert!(Operator::FindBackward { after: false }.is_waiting(mode));
        assert!(Operator::Mark.is_waiting(mode));
        assert!(Operator::Jump { line: false }.is_waiting(mode));
        assert!(Operator::Register.is_waiting(mode));
        assert!(Operator::RecordRegister.is_waiting(mode));
        assert!(Operator::ReplayRegister.is_waiting(mode));
        assert!(Operator::Replace.is_waiting(mode));
        assert!(Operator::Digraph { first_char: None }.is_waiting(mode));
        assert!(
            Operator::ChangeSurrounds {
                target: Some(Object::Quotes)
            }
            .is_waiting(mode)
        );
        assert!(Operator::DeleteSurrounds.is_waiting(mode));
    }
}

#[test]
fn recorded_selection_defaults_to_empty() {
    assert_eq!(RecordedSelection::default(), RecordedSelection::Empty);
}

#[test]
fn search_state_defaults() {
    let state = SearchState::default();
    assert_eq!(state.direction, Direction::Next);
    assert_eq!(state.count, 0);
    assert_eq!(state.initial_query, "");
    assert!(state.prior_selections.is_empty());
    assert!(state.prior_operator.is_none());
    assert_eq!(state.prior_mode, Mode::Normal);
}
