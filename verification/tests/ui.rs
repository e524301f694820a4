use mini_crater::message::Message;
use mini_crater::registry::Crate;
use mini_crater::scroll::{ListState, ScrollState};
use mini_crater::state::{
    Progress, Root, RootFocus, RunExperimentOutput, RunExperimentProgress, RunExperiments,
    RunExperimentsFocus,
};
use mini_crater::trace::Trace;
use mini_crater::ui::{Control, KeyCode, KeyEventKind, MetaEvent, TerminalEvent};

fn a_crate(name: &str) -> Crate {
    Crate {
        name: name.to_owned(),
        max_version: "1.0.0".to_owned(),
        downloads: 1,
        repository: None,
        other: vec![],
    }
}

fn key(root: &mut Root, kind: KeyEventKind, code: KeyCode) -> Control {
    root.on_event(MetaEvent::Terminal(TerminalEvent::Key { kind, code }))
}

fn press(root: &mut Root, code: KeyCode) {
    assert_eq!(key(root, KeyEventKind::Press, code), Control::Continue);
}

fn tell(root: &mut Root, message: Message) {
    assert_eq!(root.on_event(MetaEvent::Program(message)), Control::Continue);
}

fn started(names: &[&str]) -> Root {
    let mut root = Root::default();
    let crates = names.iter().map(|name| a_crate(name)).collect();
    tell(&mut root, Message::RunExperimentsStart { crates });
    root
}

fn experiments(root: &Root) -> &RunExperiments {
    match &root.progress {
        Progress::RunExperiments(e) => e,
        Progress::Initialized => panic!("the experiments are not known"),
    }
}

fn progress(root: &Root) -> Vec<RunExperimentProgress> {
    experiments(root).experiments.iter().map(|e| e.progress).collect()
}

#[test]
fn q_leaves() {
    let mut root = Root::default();
    assert_eq!(key(&mut root, KeyEventKind::Release, KeyCode::Char('q')), Control::Continue);
    assert_eq!(key(&mut root, KeyEventKind::Repeat, KeyCode::Char('q')), Control::Continue);
    assert_eq!(key(&mut root, KeyEventKind::Press, KeyCode::Char('x')), Control::Continue);
    assert_eq!(key(&mut root, KeyEventKind::Press, KeyCode::Char('q')), Control::Quit);
}

#[test]
fn function_keys_choose_the_tab() {
    let mut root = Root::default();
    press(&mut root, KeyCode::F(2));
    assert_eq!(root.focus, RootFocus::Tracing);
    press(&mut root, KeyCode::F(3));
    assert_eq!(root.focus, RootFocus::Tracing);
    press(&mut root, KeyCode::F(1));
    assert_eq!(root.focus, RootFocus::Progress);
    key(&mut root, KeyEventKind::Release, KeyCode::F(2));
    assert_eq!(root.focus, RootFocus::Progress);
}

#[test]
fn the_list_is_walked() {
    let mut root = started(&["a", "b"]);
    assert_eq!(experiments(&root).crate_list.selected, None);
    press(&mut root, KeyCode::Down);
    assert_eq!(experiments(&root).crate_list.selected, Some(0));
    press(&mut root, KeyCode::Down);
    assert_eq!(experiments(&root).crate_list.selected, Some(1));
    press(&mut root, KeyCode::Up);
    assert_eq!(experiments(&root).crate_list.selected, Some(0));
    press(&mut root, KeyCode::Up);
    assert_eq!(experiments(&root).crate_list.selected, Some(0));
    key(&mut root, KeyEventKind::Repeat, KeyCode::Down);
    assert_eq!(experiments(&root).crate_list.selected, Some(0));
}

#[test]
fn going_up_first_goes_to_the_end() {
    let mut list = ListState::default();
    list.select_previous();
    assert_eq!(list.selected, Some(usize::MAX));
    list.select_next();
    assert_eq!(list.selected, Some(usize::MAX));
    list.select_previous();
    assert_eq!(list.selected, Some(usize::MAX - 1));
}

#[test]
fn the_selection_goes_the_way_of_the_widget() {
    let mut list = ListState::default();
    let mut widget = ratatui::widgets::ListState::default();
    for down in [true, true, false, true, false, false, false, true] {
        if down {
            list.select_next();
            widget.select_next();
        } else {
            list.select_previous();
            widget.select_previous();
        }
        assert_eq!(list.selected, widget.selected());
        assert_eq!(list.offset, widget.offset());
    }
}

#[test]
fn scrolling_goes_the_way_of_the_widget() {
    let mut state = ScrollState::default();
    let mut widget = tui_widgets::scrollview::ScrollViewState::default();
    for step in [0, 1, 2, 0, 0, 3, 2, 2, 1, 4, 5, 5, 0, 3, 4, 4, 4] {
        match step {
            0 => {
                state.scroll_down();
                widget.scroll_down();
            }
            1 => {
                state.scroll_up();
                widget.scroll_up();
            }
            2 => {
                state.scroll_right();
                widget.scroll_right();
            }
            3 => {
                state.scroll_left();
                widget.scroll_left();
            }
            4 => {
                state.scroll_page_down();
                widget.scroll_page_down();
            }
            _ => {
                state.scroll_page_up();
                widget.scroll_page_up();
            }
        }
        assert_eq!((state.x, state.y), (widget.offset().x, widget.offset().y));
    }
}

#[test]
fn pages_overlap_by_one_row() {
    let mut state = ScrollState { x: 0, y: 5, page: Some(10) };
    state.scroll_page_down();
    assert_eq!(state.y, 14);
    state.scroll_page_up();
    assert_eq!(state.y, 5);
    state.scroll_page_up();
    assert_eq!(state.y, 0);
}

#[test]
fn tab_hands_the_keys_over() {
    let mut root = started(&["a", "b"]);
    press(&mut root, KeyCode::Down);
    press(&mut root, KeyCode::Tab);
    assert_eq!(experiments(&root).focus, RunExperimentsFocus::Detail);
    press(&mut root, KeyCode::Down);
    press(&mut root, KeyCode::Down);
    press(&mut root, KeyCode::Up);
    assert_eq!(experiments(&root).crate_list.selected, Some(0));
    assert_eq!(experiments(&root).experiments[0].crate_detail.y, 1);
    assert_eq!(experiments(&root).experiments[1].crate_detail.y, 0);
    press(&mut root, KeyCode::Right);
    assert_eq!(experiments(&root).experiments[0].crate_detail.x, 0);
    press(&mut root, KeyCode::Tab);
    assert_eq!(experiments(&root).focus, RunExperimentsFocus::List);
    press(&mut root, KeyCode::Down);
    assert_eq!(experiments(&root).crate_list.selected, Some(1));
    assert_eq!(experiments(&root).experiments[0].crate_detail.y, 1);
}

#[test]
fn without_a_selection_there_are_no_details() {
    let mut root = started(&["a"]);
    press(&mut root, KeyCode::Tab);
    press(&mut root, KeyCode::Down);
    press(&mut root, KeyCode::PageDown);
    assert_eq!(experiments(&root).experiments[0].crate_detail, ScrollState::default());
    assert_eq!(experiments(&root).crate_list, ListState::default());
}

#[test]
fn reports_scroll_while_they_are_shown() {
    let mut root = Root::default();
    press(&mut root, KeyCode::Down);
    assert_eq!(root.tracing.offset, ScrollState::default());
    press(&mut root, KeyCode::F(2));
    press(&mut root, KeyCode::Down);
    press(&mut root, KeyCode::Down);
    press(&mut root, KeyCode::Up);
    press(&mut root, KeyCode::Right);
    press(&mut root, KeyCode::Right);
    press(&mut root, KeyCode::Left);
    assert_eq!((root.tracing.offset.x, root.tracing.offset.y), (1, 1));
    root.tracing.offset.page = Some(4);
    press(&mut root, KeyCode::PageDown);
    assert_eq!(root.tracing.offset.y, 4);
    press(&mut root, KeyCode::PageUp);
    assert_eq!(root.tracing.offset.y, 1);
}

#[test]
fn messages_change_the_experiment_they_name() {
    let mut root = started(&["a", "b"]);
    let name = || "b".to_owned();
    tell(&mut root, Message::ExperimentSkip { name: name() });
    assert_eq!(progress(&root), [RunExperimentProgress::Pending, RunExperimentProgress::Skipped]);
    tell(&mut root, Message::ExperimentSetupFailure { name: name() });
    assert_eq!(progress(&root), [RunExperimentProgress::Pending, RunExperimentProgress::OriginalError]);
    tell(&mut root, Message::ExperimentSetupSuccess { name: name() });
    assert_eq!(progress(&root), [RunExperimentProgress::Pending, RunExperimentProgress::Running]);
    tell(&mut root, Message::ExperimentOriginalFailure { name: name() });
    assert_eq!(progress(&root), [RunExperimentProgress::Pending, RunExperimentProgress::OriginalError]);
    tell(&mut root, Message::ExperimentOriginalSuccess { name: name() });
    assert_eq!(progress(&root), [RunExperimentProgress::Pending, RunExperimentProgress::Running]);
    tell(&mut root, Message::ExperimentFailure { name: name() });
    assert_eq!(progress(&root), [RunExperimentProgress::Pending, RunExperimentProgress::Error]);
    tell(&mut root, Message::ExperimentSuccess { name: name() });
    assert_eq!(progress(&root), [RunExperimentProgress::Pending, RunExperimentProgress::Success]);
    tell(&mut root, Message::ExperimentSuccess { name: "c".to_owned() });
    assert_eq!(progress(&root), [RunExperimentProgress::Pending, RunExperimentProgress::Success]);
}

#[test]
fn outputs_are_shown_where_they_belong() {
    let mut root = started(&["a", "b"]);
    let output = |out: &str| RunExperimentOutput::from_bytes(out.as_bytes().to_vec(), vec![]);
    let name = || "a".to_owned();
    tell(&mut root, Message::ExperimentOriginalOutput { name: name(), output: output("1") });
    tell(&mut root, Message::ExperimentOutput { name: name(), output: output("2") });
    assert_eq!(experiments(&root).experiments[0].original_output.stdout, "1");
    assert_eq!(experiments(&root).experiments[0].output.stdout, "2");
    assert_eq!(experiments(&root).experiments[1].original_output.stdout, "");
    assert_eq!(progress(&root)[0], RunExperimentProgress::Pending);
}

#[test]
fn two_experiments_of_a_name_change_together() {
    let mut root = started(&["a", "a"]);
    tell(&mut root, Message::ExperimentSuccess { name: "a".to_owned() });
    assert_eq!(progress(&root), [RunExperimentProgress::Success; 2]);
}

#[test]
fn early_messages_change_nothing() {
    let mut root = Root::default();
    tell(&mut root, Message::ExperimentSuccess { name: "a".to_owned() });
    assert!(matches!(root.progress, Progress::Initialized));
}

#[test]
fn reports_are_collected() {
    let mut root = started(&["a"]);
    for message in ["one", "two"] {
        let mut trace = Trace::new();
        trace.record("message".to_owned(), message.to_owned());
        assert_eq!(root.on_event(MetaEvent::Tracing(trace)), Control::Continue);
    }
    assert_eq!(root.tracing.messages(), "one\ntwo\n");
    assert_eq!(root.on_event(MetaEvent::Runner), Control::Continue);
    assert_eq!(root.on_event(MetaEvent::Terminal(TerminalEvent::Other)), Control::Continue);
    assert_eq!(root.tracing.traces.len(), 2);
}

#[test]
fn a_new_announcement_starts_over() {
    let mut root = started(&["a"]);
    press(&mut root, KeyCode::Down);
    tell(&mut root, Message::RunExperimentsStart { crates: vec![a_crate("b")] });
    assert_eq!(experiments(&root).experiments[0].name, "b");
    assert_eq!(experiments(&root).crate_list.selected, None);
}

#[test]
fn a_step_back_undoes_a_step_forth() {
    let mut list = ListState { offset: 3, selected: Some(7) };
    list.select_next();
    assert_eq!(list.selected, Some(8));
    list.select_previous();
    assert_eq!(list, ListState { offset: 3, selected: Some(7) });
}
