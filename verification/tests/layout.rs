use mini_crater::layout::{
    detail_layout, selected_border, try_detail_layout, BorderKind, DetailLayout, TraceLayout,
    HIGHLIGHT_SYMBOL, SYMBOL_WIDTH,
};
use mini_crater::registry::Crate;
use mini_crater::state::{RunExperimentOutput, RunExperiments, Tracing};
use mini_crater::trace::Trace;

fn output(stdout: &str, stderr: &str) -> RunExperimentOutput {
    RunExperimentOutput { stdout: stdout.to_owned(), stderr: stderr.to_owned() }
}

fn list(names: &[&str]) -> RunExperiments {
    RunExperiments::new(
        names
            .iter()
            .map(|name| Crate {
                name: (*name).to_owned(),
                max_version: "1.0.0".to_owned(),
                downloads: 0,
                repository: None,
                other: vec![],
            })
            .collect(),
    )
}

fn traces(messages: &[&str]) -> Tracing {
    let mut tracing = Tracing::default();
    for message in messages {
        let mut trace = Trace::new();
        trace.record("message".to_owned(), (*message).to_owned());
        tracing.push(trace);
    }
    tracing
}

#[test]
fn the_list_holds_the_longest_name() {
    assert_eq!(list(&[]).crate_list_width(), 6);
    assert_eq!(list(&["abc", "abcdef", "a"]).crate_list_width(), 12);
    assert_eq!(list(&["\u{e4}"]).crate_list_width(), 8);
}

#[test]
fn the_symbol_has_room() {
    assert_eq!(HIGHLIGHT_SYMBOL.len(), usize::from(SYMBOL_WIDTH));
}

#[test]
fn a_list_that_cannot_be_counted_is_refused() {
    assert_eq!(list(&["abc"]).try_crate_list_width(), Some(9));
    assert_eq!(list(&[&"a".repeat(65529)]).try_crate_list_width(), Some(65535));
    assert_eq!(list(&[&"a".repeat(65530)]).try_crate_list_width(), None);
    assert_eq!(list(&[&"a".repeat(70000)]).try_crate_list_width(), None);
}

#[test]
fn the_details_fill_their_area() {
    let layout = detail_layout(&output("", ""), &output("", ""), 80, 24);
    assert_eq!(
        layout,
        DetailLayout {
            width: 80,
            height: 24,
            original_stdout: 3,
            original_stderr: 3,
            stdout: 3,
            stderr: 3,
        }
    );
}

#[test]
fn the_details_grow_with_what_they_show() {
    let layout = detail_layout(
        &output("one\ntwo\n", "\n"),
        &output("one\ntwo", "a line that is wider than all\n\nof the rest"),
        10,
        5,
    );
    assert_eq!(
        layout,
        DetailLayout {
            width: 31,
            height: 16,
            original_stdout: 4,
            original_stderr: 3,
            stdout: 4,
            stderr: 5,
        }
    );
    assert_eq!(try_detail_layout(&output("a", "b"), &output("c", "d"), 1, 1).unwrap().height, 12);
}

#[test]
fn details_that_cannot_be_counted_are_refused() {
    let long = "\n".repeat(65533);
    let fits = try_detail_layout(&output("", ""), &output("", &"\n".repeat(65524)), 1, 1);
    assert_eq!(fits.unwrap().height, 65535);
    assert!(try_detail_layout(&output(&long, ""), &output("", ""), 1, 1).is_none());
    assert!(try_detail_layout(&output(&long, &long), &output(&long, &long), 1, 1).is_none());
}

#[test]
fn reports_take_the_room_of_their_messages() {
    assert_eq!(traces(&[]).layout(), TraceLayout { width: 0, height: 0 });
    assert_eq!(traces(&["", ""]).layout(), TraceLayout { width: 0, height: 0 });
    assert_eq!(traces(&["one", "three", ""]).layout(), TraceLayout { width: 5, height: 3 });
    assert_eq!(traces(&["\u{6f22}\u{5b57}"]).layout(), TraceLayout { width: 4, height: 1 });
}

#[test]
fn the_half_with_the_keys_stands_out() {
    assert_eq!(selected_border(true), BorderKind::Double);
    assert_eq!(selected_border(false), BorderKind::Plain);
}
