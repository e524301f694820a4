use mini_crater::registry::Crate;
use mini_crater::saturate::SaturateToU16;
use mini_crater::scroll::ListState;
use mini_crater::state::{
    EntryStyle, Progress, Root, RootFocus, RunExperimentOutput, RunExperimentProgress,
    RunExperiments, RunExperimentsFocus, Tracing,
};
use mini_crater::trace::Trace;

fn a_crate(name: &str) -> Crate {
    Crate {
        name: name.to_owned(),
        max_version: "1.0.0".to_owned(),
        downloads: 1,
        repository: None,
        other: vec![],
    }
}

#[test]
fn focus_cycles() {
    assert_eq!(RunExperimentsFocus::List.next(), RunExperimentsFocus::Detail);
    assert_eq!(RunExperimentsFocus::Detail.next(), RunExperimentsFocus::List);
}

#[test]
fn focus_is_on_one_side() {
    assert!(RunExperimentsFocus::List.is_list());
    assert!(!RunExperimentsFocus::List.is_detail());
    assert!(RunExperimentsFocus::Detail.is_detail());
    assert!(!RunExperimentsFocus::Detail.is_list());
}

#[test]
fn tabs_are_numbered() {
    assert_eq!(RootFocus::Progress.nth(), 0);
    assert_eq!(RootFocus::Tracing.nth(), 1);
}

#[test]
fn a_new_screen_shows_the_progress() {
    let root = Root::default();
    assert_eq!(root.focus, RootFocus::Progress);
    assert!(matches!(root.progress, Progress::Initialized));
    assert!(root.tracing.traces.is_empty());
}

#[test]
fn every_crate_gets_an_experiment() {
    let r = RunExperiments::new(vec![a_crate("a"), a_crate("b")]);
    assert_eq!(r.experiments.len(), 2);
    assert_eq!(r.experiments[0].name, "a");
    assert_eq!(r.experiments[1].name, "b");
    for e in &r.experiments {
        assert_eq!(e.progress, RunExperimentProgress::Pending);
        assert_eq!(e.original_output.stdout, "");
        assert_eq!(e.original_output.stderr, "");
        assert_eq!(e.output.stdout, "");
        assert_eq!(e.output.stderr, "");
    }
    assert_eq!(r.focus, RunExperimentsFocus::List);
    assert_eq!(r.crate_list, ListState { offset: 0, selected: None });
}

#[test]
fn progress_has_a_colour() {
    assert_eq!(RunExperimentProgress::Pending.style(), EntryStyle::Plain);
    assert_eq!(RunExperimentProgress::Skipped.style(), EntryStyle::Dim);
    assert_eq!(RunExperimentProgress::Running.style(), EntryStyle::Cyan);
    assert_eq!(RunExperimentProgress::Success.style(), EntryStyle::Green);
    assert_eq!(RunExperimentProgress::OriginalError.style(), EntryStyle::Yellow);
    assert_eq!(RunExperimentProgress::Error.style(), EntryStyle::Red);
}

#[test]
fn output_that_is_text_is_kept() {
    let output = RunExperimentOutput::from_bytes("größer\n".as_bytes().to_vec(), b"warning".to_vec());
    assert_eq!(output.stdout, "größer\n");
    assert_eq!(output.stderr, "warning");
}

#[test]
fn output_that_is_no_text_is_marked() {
    let output = RunExperimentOutput::from_bytes(vec![b'a', 0xff, b'b'], vec![0xc3]);
    assert_eq!(output.stdout, "a\u{fffd}b");
    assert_eq!(output.stderr, "\u{fffd}");
}

#[test]
fn messages_end_in_line_breaks() {
    let mut tracing = Tracing::default();
    assert_eq!(tracing.messages(), "");
    for message in ["one", "", "two"] {
        let mut trace = Trace::new();
        trace.record("message".to_owned(), message.to_owned());
        trace.record("level".to_owned(), "info".to_owned());
        tracing.push(trace);
    }
    assert_eq!(tracing.traces.len(), 3);
    assert_eq!(tracing.messages(), "one\n\ntwo\n");
}

#[test]
fn wide_numbers_saturate() {
    assert_eq!(0usize.saturate_to_u16(), 0);
    assert_eq!(65535usize.saturate_to_u16(), 65535);
    assert_eq!(65536usize.saturate_to_u16(), 65535);
    assert_eq!(usize::MAX.saturate_to_u16(), 65535);
}
