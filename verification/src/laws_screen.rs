//! What the terminal shows and how it answers to keys, told by what comes in and what is there
//! after.

use vstd::prelude::*;
use vstd::utf8::encode_utf8;

use crate::command::{CommandLine, Word, WordView};
use crate::experiment::{Event, EventView, ExperimentRun, Place, PlaceView};
use crate::fetch::ReverseDependenciesFetch;
use crate::laws::shown_experiments;
use crate::layout::{
    byte_len, detail_height, detail_view, list_width, longest_name, part_height, text_view,
};
use crate::manifest::{DependencyEntry, DetailedDependency, PatchEntry};
use crate::message::{message_views, Message, MessageView};
use crate::outside::{edges, line_breaks, line_total, paragraph_width};
use crate::registry::{count_views, crate_names, crate_views, Crate, CrateView, NameAndDownloadCount};
use crate::saturate::SaturateToU16;
use crate::scroll::{no_selection, not_scrolled, ScrollState};
use crate::state::{
    first_screen, new_experiments, output_of, EntryStyle, OutputView, Progress, ProgressView, Root, RootFocus,
    RootView, RunExperiment, RunExperimentOutput, RunExperimentProgress, RunExperimentView,
    RunExperiments, RunExperimentsFocus, Tracing,
};
use crate::statistics::Statistics;
use crate::trace::{empty_trace, fields_by_name, message_text, Field, Trace, TraceView};
use crate::ui::{
    after_event, after_message, after_press, after_update, changed_by_name, quits, KeyCode,
    KeyEventKind, MetaEvent, MetaEventView, TerminalEvent, Update, UpdateView,
};

verus! {

/// What a message says of how far the experiments of a name have come.
pub open spec fn says_progress(
    message: MessageView,
    name: Seq<char>,
    progress: RunExperimentProgress,
) -> bool {
    match progress {
        RunExperimentProgress::Pending => false,
        RunExperimentProgress::Skipped => message == (MessageView::ExperimentSkip { name }),
        RunExperimentProgress::Running => message == (MessageView::ExperimentSetupSuccess { name })
            || message == (MessageView::ExperimentOriginalSuccess { name }),
        RunExperimentProgress::Success => message == (MessageView::ExperimentSuccess { name }),
        RunExperimentProgress::OriginalError => message == (MessageView::ExperimentSetupFailure {
            name,
        }) || message == (MessageView::ExperimentOriginalFailure { name }),
        RunExperimentProgress::Error => message == (MessageView::ExperimentFailure { name }),
    }
}

/// After a message about the experiments of a name, every one of that name shows what the message
/// says, both streams of an output, and all else of it stays; experiments of other names, and
/// where the user is, stay altogether.
pub proof fn law_message_is_shown(
    root: RootView,
    message: MessageView,
    i: int,
    progress: RunExperimentProgress,
)
    requires
        !(message is RunExperimentsStart),
        0 <= i < shown_experiments(root).len(),
    ensures
        ({
            let next = after_message(root, message);
            let was = shown_experiments(root)[i];
            let is = shown_experiments(next)[i];
            &&& shown_experiments(next).len() == shown_experiments(root).len()
            &&& is.name == was.name
            &&& is.crate_detail == was.crate_detail
            &&& next.focus == root.focus
            &&& next.tracing == root.tracing
            &&& next.progress->RunExperiments_0.focus == root.progress->RunExperiments_0.focus
            &&& next.progress->RunExperiments_0.crate_list
                == root.progress->RunExperiments_0.crate_list
            &&& says_progress(message, was.name, progress) ==> {
                &&& is.progress == progress
                &&& is.output == was.output
                &&& is.original_output == was.original_output
            }
            &&& message matches MessageView::ExperimentOutput { name, output } ==> {
                &&& is.progress == was.progress
                &&& is.original_output == was.original_output
                &&& name == was.name ==> is.output.stdout == output.stdout && is.output.stderr
                    == output.stderr
                &&& name != was.name ==> is.output == was.output
            }
            &&& message matches MessageView::ExperimentOriginalOutput { name, output } ==> {
                &&& is.progress == was.progress
                &&& is.output == was.output
                &&& name == was.name ==> is.original_output.stdout == output.stdout
                    && is.original_output.stderr == output.stderr
                &&& name != was.name ==> is.original_output == was.original_output
            }
            &&& is.progress != was.progress ==> says_progress(message, was.name, is.progress)
        }),
{
}

/// Before the experiments are announced there is nothing that a message about one of them could
/// change.
pub proof fn law_early_message_changes_nothing(root: RootView, message: MessageView)
    requires
        !(message is RunExperimentsStart),
        root.progress == ProgressView::Initialized,
    ensures
        after_message(root, message) == root,
{
}

/// An announcement shows every crate, in order, as not begun and with nothing written, with the
/// keys going to the list and nothing selected.
pub proof fn law_announcement_shows_every_crate(root: RootView, crates: Seq<CrateView>, i: int)
    ensures
        ({
            let next = after_message(root, MessageView::RunExperimentsStart { crates });
            &&& next.focus == root.focus
            &&& next.tracing == root.tracing
            &&& next.progress matches ProgressView::RunExperiments(shown)
            &&& shown.experiments.len() == crates.len()
            &&& shown.focus == RunExperimentsFocus::List
            &&& shown.crate_list.selected is None
            &&& shown.crate_list.offset == 0
            &&& new_experiments(crates) == shown
            &&& 0 <= i < crates.len() ==> {
                let e = shown.experiments[i];
                &&& e.name == crates[i].name
                &&& e.progress == RunExperimentProgress::Pending
                &&& e.original_output.stdout.len() == 0
                &&& e.original_output.stderr.len() == 0
                &&& e.output.stdout.len() == 0
                &&& e.output.stderr.len() == 0
                &&& e.crate_detail.x == 0
                &&& e.crate_detail.y == 0
                &&& e.crate_detail.page is None
            }
        }),
{
}

/// The screen begins with the progress in front, no experiments and no reports.
pub proof fn law_screen_begins_empty()
    ensures
        first_screen().focus == RootFocus::Progress,
        first_screen().progress == ProgressView::Initialized,
        first_screen().tracing.traces.len() == 0,
        first_screen().tracing.offset.x == 0,
        first_screen().tracing.offset.y == 0,
        first_screen().tracing.offset.page is None,
{
}

/// F1 brings the progress to the front and F2 the reports; no other key changes the tab.
pub proof fn law_function_keys_choose_the_tab(root: RootView, code: KeyCode)
    ensures
        after_press(root, KeyCode::F(1)).focus == RootFocus::Progress,
        after_press(root, KeyCode::F(2)).focus == RootFocus::Tracing,
        code != KeyCode::F(1) && code != KeyCode::F(2) ==> after_press(root, code).focus
            == root.focus,
{
}

/// The reports scroll exactly while they are in front, by the arrow keys and by pages, and a key
/// adds none and takes none away.
pub proof fn law_keys_scroll_the_reports(root: RootView, code: KeyCode)
    ensures
        ({
            let next = after_press(root, code);
            let was = root.tracing.offset;
            let is = next.tracing.offset;
            &&& next.tracing.traces == root.tracing.traces
            &&& next.focus == RootFocus::Progress ==> is == was
            &&& next.focus == RootFocus::Tracing ==> is == scrolled(was, code, true)
        }),
{
}

/// Where a key takes a text that is scrolled: a row or a column for an arrow, and a page less one
/// row for a page, not beyond the first or the last that can be counted. Columns are for the
/// reports only.
pub open spec fn scrolled(state: ScrollState, code: KeyCode, sideways: bool) -> ScrollState {
    let page: int = match state.page {
        Some(rows) => rows as int,
        None => 1,
    };
    let low = |n: int|
        if n < 0 {
            0
        } else {
            n
        };
    let high = |n: int|
        if n > 65535 {
            65535
        } else {
            n
        };
    let x: int = if !sideways {
        state.x as int
    } else if code == KeyCode::Right {
        high(state.x + 1)
    } else if code == KeyCode::Left {
        low(state.x - 1)
    } else {
        state.x as int
    };
    let y: int = if code == KeyCode::Down {
        high(state.y + 1)
    } else if code == KeyCode::Up {
        low(state.y - 1)
    } else if code == KeyCode::PageDown {
        low(high(state.y + page) - 1)
    } else if code == KeyCode::PageUp {
        low(high(state.y + 1) - page)
    } else {
        state.y as int
    };
    ScrollState { x: x as u16, y: y as u16, page: state.page }
}

/// The tab key hands the keys to the other half and does nothing else. Any other key goes to the
/// half that has the keys: on the list, up and down move the selection; on the details, keys
/// scroll those of the experiment that is selected, and of no other.
pub proof fn law_keys_go_to_the_half_in_focus(root: RootView, code: KeyCode, i: int)
    requires
        root.progress is RunExperiments,
    ensures
        ({
            let was = root.progress->RunExperiments_0;
            let next = after_press(root, code);
            let is = next.progress->RunExperiments_0;
            let on_list = was.focus == RunExperimentsFocus::List;
            &&& next.progress is RunExperiments
            &&& is.experiments.len() == was.experiments.len()
            &&& is.crate_list.offset == was.crate_list.offset
            &&& code == KeyCode::Tab ==> is.focus != was.focus && is.crate_list == was.crate_list
            &&& code != KeyCode::Tab ==> is.focus == was.focus
            &&& on_list && code == KeyCode::Down ==> is.crate_list.selected
                == match was.crate_list.selected {
                None => Some(0usize),
                Some(k) => if k == usize::MAX {
                    Some(k)
                } else {
                    Some((k + 1) as usize)
                },
            }
            &&& on_list && code == KeyCode::Up ==> is.crate_list.selected
                == match was.crate_list.selected {
                None => Some(usize::MAX),
                Some(k) => if k == 0 {
                    Some(k)
                } else {
                    Some((k - 1) as usize)
                },
            }
            &&& !on_list || (code != KeyCode::Down && code != KeyCode::Up) ==> is.crate_list
                == was.crate_list
            &&& 0 <= i < was.experiments.len() ==> {
                let e = was.experiments[i];
                let f = is.experiments[i];
                &&& f.name == e.name
                &&& f.progress == e.progress
                &&& f.output == e.output
                &&& f.original_output == e.original_output
                &&& f.crate_detail == if !on_list && code != KeyCode::Tab
                    && was.crate_list.selected == Some(i as usize) && i <= usize::MAX {
                    scrolled(e.crate_detail, code, false)
                } else {
                    e.crate_detail
                }
            }
        }),
{
}

/// Before the experiments are announced there are none for a key to change.
pub proof fn law_early_key_changes_no_experiments(root: RootView, code: KeyCode)
    requires
        root.progress == ProgressView::Initialized,
    ensures
        after_press(root, code).progress == ProgressView::Initialized,
{
}

/// Pressing `q` leaves, and nothing else does. Only a key that goes down does anything; what the
/// run tells is taken in as it is told, and a report is put behind the others.
pub proof fn law_events_are_answered(root: RootView, event: MetaEventView)
    ensures
        ({
            let next = after_event(root, event);
            let pressed = event matches MetaEventView::Terminal(TerminalEvent::Key { kind, code })
                && kind == KeyEventKind::Press;
            &&& quits(event) <==> pressed && event->Terminal_0->code == KeyCode::Char('q')
            &&& event is Terminal && !pressed ==> next == root
            &&& pressed && !quits(event) ==> next == after_press(root, event->Terminal_0->code)
            &&& event is Runner ==> next == root
            &&& event matches MetaEventView::Program(message) ==> next == after_message(
                root,
                message,
            )
            &&& event matches MetaEventView::Tracing(trace) ==> {
                let n = root.tracing.traces.len() as int;
                &&& next.focus == root.focus
                &&& next.progress == root.progress
                &&& next.tracing.offset == root.tracing.offset
                &&& next.tracing.traces.len() == n + 1
                &&& next.tracing.traces[n] == trace
                &&& next.tracing.traces.take(n) == root.tracing.traces
            }
        }),
{
    if let MetaEventView::Tracing(trace) = event {
        let n = root.tracing.traces.len() as int;
        assert(after_event(root, event).tracing.traces.take(n) =~= root.tracing.traces);
    }
}

/// Each tab has its place, and each state of an experiment its colour.
pub proof fn law_places_and_colours(progress: RunExperimentProgress)
    ensures
        RootFocus::Progress.place() == 0,
        RootFocus::Tracing.place() == 1,
        progress.shown() == EntryStyle::Plain <==> progress == RunExperimentProgress::Pending,
        progress.shown() == EntryStyle::Dim <==> progress == RunExperimentProgress::Skipped,
        progress.shown() == EntryStyle::Cyan <==> progress == RunExperimentProgress::Running,
        progress.shown() == EntryStyle::Green <==> progress == RunExperimentProgress::Success,
        progress.shown() == EntryStyle::Yellow <==> progress
            == RunExperimentProgress::OriginalError,
        progress.shown() == EntryStyle::Red <==> progress == RunExperimentProgress::Error,
        no_selection().selected is None,
        no_selection().offset == 0,
        not_scrolled().x == 0,
        not_scrolled().y == 0,
        not_scrolled().page is None,
{
}

/// The messages of the reports stand in order, each whole and with a line break behind it.
pub proof fn law_messages_stand_line_by_line(traces: Seq<TraceView>, trace: TraceView)
    ensures
        message_text(Seq::empty()).len() == 0,
        ({
            let was = message_text(traces);
            let is = message_text(traces.push(trace));
            let n = was.len() as int;
            let m = trace.message.len() as int;
            &&& is.len() == n + m + 1
            &&& is.take(n) == was
            &&& is.subrange(n, n + m) == trace.message
            &&& is[n + m] == '\n'
        }),
{
    reveal_strlit("\n");
    assert(traces.push(trace).drop_last() =~= traces);
    let was = message_text(traces);
    let is = message_text(traces.push(trace));
    let n = was.len() as int;
    let m = trace.message.len() as int;
    assert(is.take(n) =~= was);
    assert(is.subrange(n, n + m) =~= trace.message);
}

/// A report begins with nothing.
pub proof fn law_report_begins_empty(name: Seq<char>)
    ensures
        empty_trace().message.len() == 0,
        !empty_trace().fields.contains_key(name),
{
}

/// A value that is recorded stands under its name, in place of an earlier one; under the name of
/// the message it is the message.
pub proof fn law_values_are_recorded(
    trace: TraceView,
    name: Seq<char>,
    value: Seq<char>,
    other: Seq<char>,
    fields: Seq<Field>,
    field: Field,
)
    ensures
        ({
            let next = trace.with(name, value);
            &&& name == "message"@ ==> next.message == value && next.fields == trace.fields
            &&& name != "message"@ ==> {
                &&& next.message == trace.message
                &&& next.fields.contains_key(name)
                &&& next.fields[name] == value
                &&& other != name ==> {
                    &&& next.fields.contains_key(other) <==> trace.fields.contains_key(other)
                    &&& trace.fields.contains_key(other) ==> next.fields[other]
                        == trace.fields[other]
                }
            }
        }),
        !fields_by_name(Seq::empty()).contains_key(other),
        fields_by_name(fields.push(field)).contains_key(other) <==> other == field.name@
            || fields_by_name(fields).contains_key(other),
        fields_by_name(fields.push(field))[field.name@] == field.value@,
        other != field.name@ && fields_by_name(fields).contains_key(other) ==> fields_by_name(
            fields.push(field),
        )[other] == fields_by_name(fields)[other],
{
    assert(fields.push(field).drop_last() =~= fields);
}

/// The list has room for its longest name, and no more than for one of them: a border, the symbol
/// and as much again beside it, six columns together.
pub proof fn law_list_has_room_for_every_name(experiments: Seq<RunExperimentView>, i: int)
    ensures
        list_width(experiments) >= 6,
        list_width(experiments) <= 65541,
        experiments.len() == 0 ==> list_width(experiments) == 6,
        0 <= i < experiments.len() ==> byte_len(experiments[i].name) <= longest_name(experiments),
        experiments.len() > 0 ==> exists|k: int|
            0 <= k < experiments.len() && byte_len((#[trigger] experiments[k]).name)
                == longest_name(experiments),
        longest_name(experiments) <= 65535 ==> list_width(experiments) == longest_name(experiments)
            + 6,
        longest_name(experiments) > 65535 ==> list_width(experiments) == 65541,
    decreases experiments.len(),
{
    if experiments.len() > 0 {
        let earlier = experiments.drop_last();
        law_list_has_room_for_every_name(earlier, i);
        let last = experiments.len() - 1;
        if longest_name(earlier) < byte_len(experiments[last].name) {
            assert(byte_len(experiments[last].name) == longest_name(experiments));
        } else if earlier.len() > 0 {
            let k = choose|k: int|
                0 <= k < earlier.len() && byte_len((#[trigger] earlier[k]).name) == longest_name(
                    earlier,
                );
            assert(experiments[k] == earlier[k]);
        } else {
            assert(byte_len(experiments[last].name) == longest_name(experiments));
        }
        if 0 <= i < earlier.len() {
            assert(experiments[i] == earlier[i]);
        }
    }
}

/// Each line break ends a line, and what follows the last one makes one more; nothing takes a line
/// too. A border takes a line, or a column, on either side.
pub proof fn law_lines_are_counted(text: Seq<char>, c: char)
    ensures
        line_total(Seq::empty()) == 1,
        line_breaks(Seq::empty()) == 0,
        line_breaks(text.push(c)) == line_breaks(text) + if c == '\n' {
            1int
        } else {
            0int
        },
        line_total(text.push('\n')) == line_breaks(text) + 1,
        c != '\n' ==> line_total(text.push(c)) == line_breaks(text) + 1,
        edges(true) == 2,
        edges(false) == 0,
{
    reveal(Seq::filter);
    assert(text.push(c).drop_last() =~= text);
    assert(text.push('\n').drop_last() =~= text);
}

/// The height of a part is that of its lines and its border, as far as that can be counted.
pub proof fn law_parts_are_as_high_as_their_lines(text: Seq<char>)
    ensures
        line_total(text) + 2 <= 65535 ==> part_height(text) == line_total(text) + 2,
        65535 < line_total(text) + 2 <= usize::MAX ==> part_height(text) == 65535,
{
}

/// The details are as wide as the widest of their parts or the area, and as high as the parts
/// together or the area, whichever is more; the parts keep their heights.
pub proof fn law_details_are_laid_out(
    original_output: OutputView,
    output: OutputView,
    area_width: u16,
    area_height: u16,
)
    requires
        detail_height(original_output, output) <= 65535,
    ensures
        ({
            let r = detail_view(original_output, output, area_width, area_height);
            let widths = seq![
                paragraph_width(original_output.stdout, true),
                paragraph_width(original_output.stderr, true),
                paragraph_width(output.stdout, true),
                paragraph_width(output.stderr, true),
                area_width as usize,
            ];
            &&& r.original_stdout == part_height(original_output.stdout)
            &&& r.original_stderr == part_height(original_output.stderr)
            &&& r.stdout == part_height(output.stdout)
            &&& r.stderr == part_height(output.stderr)
            &&& detail_height(original_output, output) == r.original_stdout + r.original_stderr
                + r.stdout + r.stderr
            &&& r.height >= r.original_stdout + r.original_stderr + r.stdout + r.stderr
            &&& r.height >= area_height
            &&& r.height == area_height || r.height == r.original_stdout + r.original_stderr
                + r.stdout + r.stderr
            &&& forall|i: int| 0 <= i < 5 ==> #[trigger] widths[i] <= r.width || r.width == 65535
            &&& exists|i: int|
                0 <= i < 5 && (#[trigger] widths[i] == r.width || (widths[i] > 65535 && r.width
                    == 65535))
        }),
{
    let r = detail_view(original_output, output, area_width, area_height);
    let a = paragraph_width(original_output.stdout, true);
    let b = paragraph_width(original_output.stderr, true);
    let c = paragraph_width(output.stdout, true);
    let d = paragraph_width(output.stderr, true);
    let widths = seq![a, b, c, d, area_width as usize];
    if r.width == a.saturated() {
        assert(widths[0] == a);
    } else if r.width == b.saturated() {
        assert(widths[1] == b);
    } else if r.width == c.saturated() {
        assert(widths[2] == c);
    } else if r.width == d.saturated() {
        assert(widths[3] == d);
    } else {
        assert(widths[4] == r.width);
    }
}

/// The reports take the columns of their widest line and a row for each line, as far as that can
/// be counted, and no row where they take no column.
pub proof fn law_reports_are_laid_out(text: Seq<char>)
    ensures
        ({
            let r = text_view(text);
            let width = paragraph_width(text, false);
            &&& width <= 65535 ==> r.width == width
            &&& width > 65535 ==> r.width == 65535
            &&& width == 0 ==> r.height == 0
            &&& width > 0 && line_total(text) <= 65535 ==> r.height == line_total(text)
            &&& width > 0 && 65535 < line_total(text) <= usize::MAX ==> r.height == 65535
        }),
{
}

/// A number is narrowed to itself where it fits, and else to the largest that does.
pub proof fn law_narrowing_saturates(n: usize, m: usize)
    ensures
        n <= 65535 ==> n.saturated() == n,
        n > 65535 ==> n.saturated() == 65535,
        n <= m ==> n.saturated() <= m.saturated(),
{
}

/// The models of what the terminal shows hold all of it.
pub proof fn law_models_of_the_screen_are_whole(
    output: RunExperimentOutput,
    e: RunExperiment,
    es: RunExperiments,
    tracing: Tracing,
    root: Root,
    i: int,
)
    ensures
        output@.stdout == output.stdout@,
        output@.stderr == output.stderr@,
        e@.name == e.name@,
        e@.progress == e.progress,
        e@.original_output == e.original_output@,
        e@.output == e.output@,
        e@.crate_detail == e.crate_detail,
        es@.focus == es.focus,
        es@.crate_list == es.crate_list,
        es@.experiments.len() == es.experiments@.len(),
        0 <= i < es.experiments@.len() ==> es@.experiments[i] == es.experiments@[i]@,
        tracing@.offset == tracing.offset,
        tracing@.traces.len() == tracing.traces@.len(),
        0 <= i < tracing.traces@.len() ==> tracing@.traces[i] == tracing.traces@[i]@,
        root@.focus == root.focus,
        root@.tracing == root.tracing@,
        root.progress matches Progress::RunExperiments(shown) ==> root@.progress
            == ProgressView::RunExperiments(shown@),
        root.progress is Initialized ==> root@.progress == ProgressView::Initialized,
{
}

/// What a command wrote is taken for text stream by stream.
pub proof fn law_streams_are_kept_apart(stdout: Seq<u8>, stderr: Seq<u8>)
    ensures
        output_of(stdout, stderr).stdout == crate::outside::utf8_lossy(stdout),
        output_of(stdout, stderr).stderr == crate::outside::utf8_lossy(stderr),
{
}

/// The models of what goes between the run and the terminal hold all of it.
pub proof fn law_models_of_messages_are_whole(
    message: Message,
    messages: Seq<Message>,
    event: MetaEvent,
    trace: Trace,
    i: int,
)
    ensures
        message matches Message::RunExperimentsStart { crates } ==> message@ == (
        MessageView::RunExperimentsStart { crates: crate_views(crates@) }),
        message matches Message::ExperimentSkip { name } ==> message@ == (
        MessageView::ExperimentSkip { name: name@ }),
        message matches Message::ExperimentSetupFailure { name } ==> message@ == (
        MessageView::ExperimentSetupFailure { name: name@ }),
        message matches Message::ExperimentSetupSuccess { name } ==> message@ == (
        MessageView::ExperimentSetupSuccess { name: name@ }),
        message matches Message::ExperimentOriginalOutput { name, output } ==> message@ == (
        MessageView::ExperimentOriginalOutput { name: name@, output: output@ }),
        message matches Message::ExperimentOriginalSuccess { name } ==> message@ == (
        MessageView::ExperimentOriginalSuccess { name: name@ }),
        message matches Message::ExperimentOriginalFailure { name } ==> message@ == (
        MessageView::ExperimentOriginalFailure { name: name@ }),
        message matches Message::ExperimentOutput { name, output } ==> message@ == (
        MessageView::ExperimentOutput { name: name@, output: output@ }),
        message matches Message::ExperimentSuccess { name } ==> message@ == (
        MessageView::ExperimentSuccess { name: name@ }),
        message matches Message::ExperimentFailure { name } ==> message@ == (
        MessageView::ExperimentFailure { name: name@ }),
        message_views(messages).len() == messages.len(),
        0 <= i < messages.len() ==> message_views(messages)[i] == messages[i]@,
        event matches MetaEvent::Terminal(e) ==> event@ == MetaEventView::Terminal(e),
        event matches MetaEvent::Program(m) ==> event@ == MetaEventView::Program(m@),
        event matches MetaEvent::Tracing(t) ==> event@ == MetaEventView::Tracing(t@),
        event is Runner ==> event@ == MetaEventView::Runner,
        trace@.message == trace.message@,
        trace@.fields == fields_by_name(trace.fields@),
{
}

/// The models of what the run works on hold all that it reads.
pub proof fn law_models_of_the_run_are_whole(
    c: Crate,
    crates: Seq<Crate>,
    count: NameAndDownloadCount,
    counts: Seq<NameAndDownloadCount>,
    statistics: Statistics,
    run: ExperimentRun,
    fetch: ReverseDependenciesFetch,
    i: int,
)
    ensures
        c@.name == c.name@,
        c@.max_version == c.max_version@,
        c@.downloads == c.downloads,
        c@.repository is Some <==> c.repository is Some,
        c.repository matches Some(repository) ==> c@.repository == Some(repository@),
        crate_views(crates).len() == crates.len(),
        0 <= i < crates.len() ==> crate_views(crates)[i] == crates[i]@,
        crate_names(crate_views(crates)).len() == crates.len(),
        0 <= i < crates.len() ==> crate_names(crate_views(crates))[i] == crates[i].name@,
        count@.name == count.name@,
        count@.downloads == count.downloads,
        count_views(counts).len() == counts.len(),
        0 <= i < counts.len() ==> count_views(counts)[i] == counts[i]@,
        lists(statistics@.setup_successes, statistics.setup_successes@),
        lists(statistics@.setup_failures, statistics.setup_failures@),
        lists(statistics@.original_successes, statistics.original_successes@),
        lists(statistics@.original_failures, statistics.original_failures@),
        lists(statistics@.experiment_successes, statistics.experiment_successes@),
        lists(statistics@.experiment_failures, statistics.experiment_failures@),
        run@.index == run.index,
        run@.stage == run.stage,
        run@.statistics == run.statistics@,
        run@.draft.manifest == run.draft.manifest,
        run@.draft.dep is Some <==> run.draft.dep is Some,
        run.draft.dep matches Some(dep) ==> run@.draft.dep == Some(dep@),
        fetch@.query == fetch.query,
        fetch@.fused.dependencies == fetch.fused.dependencies@,
        fetch@.fused.versions == fetch.fused.versions@,
        fetch@.fused.meta == fetch.fused.meta,
{
}

/// The texts of a list of strings, in order.
pub open spec fn lists(texts: Seq<Seq<char>>, strings: Seq<String>) -> bool {
    &&& texts.len() == strings.len()
    &&& forall|i: int| 0 <= i < strings.len() ==> #[trigger] texts[i] == strings[i]@
}

/// The models of what is asked for and comes back hold all of it.
pub proof fn law_models_of_actions_are_whole(
    command: CommandLine,
    word: Word,
    place: Place,
    event: Event,
    dep: DetailedDependency,
    entry: DependencyEntry,
    line: PatchEntry,
    i: int,
)
    ensures
        command@.program == command.program@,
        command@.args.len() == command.args@.len(),
        0 <= i < command.args@.len() ==> command@.args[i] == command.args@[i]@,
        command@.envs.len() == command.envs@.len(),
        0 <= i < command.envs@.len() ==> command@.envs[i].name == command.envs@[i].name@,
        0 <= i < command.envs@.len() ==> command@.envs[i].value == command.envs@[i].value@,
        word matches Word::Text(text) ==> word@ == WordView::Text(text@),
        word is WorkingDir ==> word@ == WordView::WorkingDir,
        word is CheckoutDir ==> word@ == WordView::CheckoutDir,
        place matches Place::At(path) ==> place@ == PlaceView::At(path@),
        place is NotUtf8 ==> place@ == PlaceView::NotUtf8,
        place is Unknown ==> place@ == PlaceView::Unknown,
        event is Done ==> event@ == EventView::Done,
        event matches Event::Exists(there) ==> event@ == EventView::Exists(there),
        event matches Event::Status(success) ==> event@ == EventView::Status(success),
        event matches Event::Text(text) ==> event@ == EventView::Text(text@),
        event matches Event::Located(p) ==> event@ == EventView::Located(p@),
        event matches Event::Output { success, stdout, stderr } ==> event@ == (EventView::Output {
            success,
            stdout: stdout@,
            stderr: stderr@,
        }),
        dep@.version is Some <==> dep.version is Some,
        dep.version matches Some(version) ==> dep@.version == Some(version@),
        dep@.path is Some <==> dep.path is Some,
        dep.path matches Some(path) ==> dep@.path == Some(path@),
        dep@.default_features == dep.default_features,
        dep@.features is Some <==> dep.features is Some,
        dep.features matches Some(features) ==> lists(dep@.features->0, features@),
        entry@.name == entry.name@,
        entry@.dep == entry.dep@,
        line@.name == line.name@,
        line@.dep == *line.dep,
{
}

/// A change reaches every experiment of its name, all of it, and changes nothing else.
pub proof fn law_change_reaches_its_experiments(
    root: RootView,
    experiments: Seq<RunExperimentView>,
    name: Seq<char>,
    update: UpdateView,
    i: int,
)
    ensures
        after_update(root, name, update).focus == root.focus,
        after_update(root, name, update).tracing == root.tracing,
        root.progress == ProgressView::Initialized ==> after_update(root, name, update) == root,
        root.progress matches ProgressView::RunExperiments(shown) ==> {
            &&& after_update(root, name, update).progress matches ProgressView::RunExperiments(next)
            &&& next.focus == shown.focus
            &&& next.crate_list == shown.crate_list
            &&& next.experiments == changed_by_name(shown.experiments, name, update)
        },
        changed_by_name(experiments, name, update).len() == experiments.len(),
        0 <= i < experiments.len() ==> {
            let was = experiments[i];
            let is = changed_by_name(experiments, name, update)[i];
            &&& is.name == was.name
            &&& is.crate_detail == was.crate_detail
            &&& was.name != name ==> is == was
            &&& was.name == name ==> {
                &&& is.progress == match update {
                    UpdateView::Progress(progress) => progress,
                    _ => was.progress,
                }
                &&& update matches UpdateView::OriginalOutput(output) ==> is.original_output.stdout
                    == output.stdout && is.original_output.stderr == output.stderr
                &&& !(update is OriginalOutput) ==> is.original_output == was.original_output
                &&& update matches UpdateView::Output(output) ==> is.output.stdout == output.stdout
                    && is.output.stderr == output.stderr
                &&& !(update is Output) ==> is.output == was.output
            }
        },
{
}

/// The models of changes hold all of them, and names are measured in UTF-8.
pub proof fn law_models_of_changes_are_whole(update: Update, text: Seq<char>)
    ensures
        update matches Update::Progress(progress) ==> update@ == UpdateView::Progress(progress),
        update matches Update::OriginalOutput(output) ==> update@ == UpdateView::OriginalOutput(
            output@,
        ),
        update matches Update::Output(output) ==> update@ == UpdateView::Output(output@),
        encode_utf8(text).len() <= usize::MAX ==> byte_len(text) == encode_utf8(text).len(),
{
}

} // verus!
