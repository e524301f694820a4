//! How the terminal answers to keys and to the run.

use vstd::prelude::*;

use crate::message::{Message, MessageView};
use crate::scroll::{ListState, ScrollState};
use crate::state::{
    new_experiments, OutputView, Progress, ProgressView, Root, RootFocus,
    RootView, RunExperiment, RunExperimentOutput, RunExperimentProgress, RunExperimentView,
    RunExperiments, RunExperimentsFocus, RunExperimentsView, TracingView,
};
use crate::trace::{Trace, TraceView};

verus! {

/// The keys that mean something here.
#[derive(Debug, Copy, Clone, PartialEq, Eq, Structural)]
pub enum KeyCode {
    Char(char),
    F(u8),
    Tab,
    Up,
    Down,
    Left,
    Right,
    PageUp,
    PageDown,
    Other,
}

/// What happened to a key.
#[derive(Debug, Copy, Clone, PartialEq, Eq, Structural)]
pub enum KeyEventKind {
    Press,
    Repeat,
    Release,
}

/// What the user did at the terminal.
#[derive(Debug, Copy, Clone, PartialEq, Eq, Structural)]
pub enum TerminalEvent {
    Key { kind: KeyEventKind, code: KeyCode },
    Other,
}

/// Anything that the terminal answers to.
#[derive(Debug)]
pub enum MetaEvent {
    Terminal(TerminalEvent),
    Program(Message),
    Tracing(Trace),
    /// The run has ended.
    Runner,
}

/// The model of a [`MetaEvent`].
pub enum MetaEventView {
    Terminal(TerminalEvent),
    Program(MessageView),
    Tracing(TraceView),
    Runner,
}

impl View for MetaEvent {
    type V = MetaEventView;

    open spec fn view(&self) -> MetaEventView {
        match self {
            MetaEvent::Terminal(event) => MetaEventView::Terminal(*event),
            MetaEvent::Program(message) => MetaEventView::Program(message@),
            MetaEvent::Tracing(trace) => MetaEventView::Tracing(trace@),
            MetaEvent::Runner => MetaEventView::Runner,
        }
    }
}

/// Whether to go on.
#[derive(Debug, Copy, Clone, PartialEq, Eq, Structural)]
pub enum Control {
    Continue,
    Quit,
}

/// A change to what is shown of an experiment.
pub enum Update {
    Progress(RunExperimentProgress),
    OriginalOutput(RunExperimentOutput),
    Output(RunExperimentOutput),
}

/// The model of an [`Update`].
pub enum UpdateView {
    Progress(RunExperimentProgress),
    OriginalOutput(OutputView),
    Output(OutputView),
}

impl View for Update {
    type V = UpdateView;

    open spec fn view(&self) -> UpdateView {
        match self {
            Update::Progress(progress) => UpdateView::Progress(*progress),
            Update::OriginalOutput(output) => UpdateView::OriginalOutput(output@),
            Update::Output(output) => UpdateView::Output(output@),
        }
    }
}

/// The experiment after a change.
pub open spec fn changed(e: RunExperimentView, update: UpdateView) -> RunExperimentView {
    match update {
        UpdateView::Progress(progress) => RunExperimentView { progress, ..e },
        UpdateView::OriginalOutput(original_output) => RunExperimentView { original_output, ..e },
        UpdateView::Output(output) => RunExperimentView { output, ..e },
    }
}

/// The experiments after a change to those of this name.
pub open spec fn changed_by_name(
    experiments: Seq<RunExperimentView>,
    name: Seq<char>,
    update: UpdateView,
) -> Seq<RunExperimentView> {
    experiments.map_values(
        |e: RunExperimentView|
            if e.name == name {
                changed(e, update)
            } else {
                e
            },
    )
}

/// The screen after a change to the experiments of this name; before the experiments are known
/// there is nothing to change.
pub open spec fn after_update(root: RootView, name: Seq<char>, update: UpdateView) -> RootView {
    match root.progress {
        ProgressView::Initialized => root,
        ProgressView::RunExperiments(e) => RootView {
            progress: ProgressView::RunExperiments(
                RunExperimentsView {
                    experiments: changed_by_name(e.experiments, name, update),
                    ..e
                },
            ),
            ..root
        },
    }
}

/// What a message about an experiment changes.
pub open spec fn update_of(message: MessageView) -> Option<(Seq<char>, UpdateView)> {
    match message {
        MessageView::RunExperimentsStart { .. } => None,
        MessageView::ExperimentSkip { name } => Some(
            (name, UpdateView::Progress(RunExperimentProgress::Skipped)),
        ),
        MessageView::ExperimentSetupFailure { name } => Some(
            (name, UpdateView::Progress(RunExperimentProgress::OriginalError)),
        ),
        MessageView::ExperimentSetupSuccess { name } => Some(
            (name, UpdateView::Progress(RunExperimentProgress::Running)),
        ),
        MessageView::ExperimentOriginalOutput { name, output } => Some(
            (name, UpdateView::OriginalOutput(output)),
        ),
        MessageView::ExperimentOriginalSuccess { name } => Some(
            (name, UpdateView::Progress(RunExperimentProgress::Running)),
        ),
        MessageView::ExperimentOriginalFailure { name } => Some(
            (name, UpdateView::Progress(RunExperimentProgress::OriginalError)),
        ),
        MessageView::ExperimentOutput { name, output } => Some(
            (name, UpdateView::Output(output)),
        ),
        MessageView::ExperimentSuccess { name } => Some(
            (name, UpdateView::Progress(RunExperimentProgress::Success)),
        ),
        MessageView::ExperimentFailure { name } => Some(
            (name, UpdateView::Progress(RunExperimentProgress::Error)),
        ),
    }
}

/// The screen after a message from the run.
pub open spec fn after_message(root: RootView, message: MessageView) -> RootView {
    match message {
        MessageView::RunExperimentsStart { crates } => RootView {
            progress: ProgressView::RunExperiments(new_experiments(crates)),
            ..root
        },
        _ => {
            let (name, update) = update_of(message)->0;
            after_update(root, name, update)
        },
    }
}

/// How a key scrolls the details of an experiment.
pub open spec fn detail_scrolled(state: ScrollState, code: KeyCode) -> ScrollState {
    match code {
        KeyCode::Down => state.down(),
        KeyCode::Up => state.up(),
        KeyCode::PageDown => state.page_down(),
        KeyCode::PageUp => state.page_up(),
        _ => state,
    }
}

/// How a key scrolls the reports.
pub open spec fn tracing_scrolled(state: ScrollState, code: KeyCode) -> ScrollState {
    match code {
        KeyCode::Right => state.right(),
        KeyCode::Left => state.left(),
        _ => detail_scrolled(state, code),
    }
}

/// How a key moves the selection.
pub open spec fn list_moved(state: ListState, code: KeyCode) -> ListState {
    match code {
        KeyCode::Down => state.next(),
        KeyCode::Up => state.previous(),
        _ => state,
    }
}

/// The experiments after a key went down: the tab key hands the keys to the other half, and that
/// half then answers to the key. The details are those of the experiment that is selected.
pub open spec fn experiments_pressed(e: RunExperimentsView, code: KeyCode) -> RunExperimentsView {
    let focus = if code is Tab {
        e.focus.following()
    } else {
        e.focus
    };
    match focus {
        RunExperimentsFocus::List => RunExperimentsView {
            focus,
            crate_list: list_moved(e.crate_list, code),
            ..e
        },
        RunExperimentsFocus::Detail => match e.crate_list.selected {
            Some(i) if i < e.experiments.len() => RunExperimentsView {
                focus,
                experiments: e.experiments.update(
                    i as int,
                    RunExperimentView {
                        crate_detail: detail_scrolled(e.experiments[i as int].crate_detail, code),
                        ..e.experiments[i as int]
                    },
                ),
                ..e
            },
            _ => RunExperimentsView { focus, ..e },
        },
    }
}

/// The screen after a key went down.
pub open spec fn after_press(root: RootView, code: KeyCode) -> RootView {
    let focus = if code == KeyCode::F(1) {
        RootFocus::Progress
    } else if code == KeyCode::F(2) {
        RootFocus::Tracing
    } else {
        root.focus
    };
    RootView {
        focus,
        progress: match root.progress {
            ProgressView::Initialized => ProgressView::Initialized,
            ProgressView::RunExperiments(e) => ProgressView::RunExperiments(
                experiments_pressed(e, code),
            ),
        },
        tracing: if focus is Tracing {
            TracingView { offset: tracing_scrolled(root.tracing.offset, code), ..root.tracing }
        } else {
            root.tracing
        },
    }
}

/// The event asks to leave.
pub open spec fn quits(event: MetaEventView) -> bool {
    event == MetaEventView::Terminal(
        TerminalEvent::Key { kind: KeyEventKind::Press, code: KeyCode::Char('q') },
    )
}

/// The screen after an event. Only a key that goes down does anything.
pub open spec fn after_event(root: RootView, event: MetaEventView) -> RootView {
    match event {
        MetaEventView::Terminal(TerminalEvent::Key { kind: KeyEventKind::Press, code }) =>
            if quits(event) {
                root
            } else {
                after_press(root, code)
            },
        MetaEventView::Terminal(_) => root,
        MetaEventView::Program(message) => after_message(root, message),
        MetaEventView::Tracing(trace) => RootView {
            tracing: TracingView { traces: root.tracing.traces.push(trace), ..root.tracing },
            ..root
        },
        MetaEventView::Runner => root,
    }
}

impl RunExperiment {
    fn change(&mut self, update: &Update)
        ensures
            final(self)@ == changed(old(self)@, update@),
    {
        match update {
            Update::Progress(progress) => {
                self.progress = *progress;
            },
            Update::OriginalOutput(output) => {
                self.original_output = output.copy();
            },
            Update::Output(output) => {
                self.output = output.copy();
            },
        }
    }
}

fn scroll_detail(state: &mut ScrollState, code: KeyCode)
    ensures
        *final(state) == detail_scrolled(*old(state), code),
{
    match code {
        KeyCode::Down => state.scroll_down(),
        KeyCode::Up => state.scroll_up(),
        KeyCode::PageDown => state.scroll_page_down(),
        KeyCode::PageUp => state.scroll_page_up(),
        _ => {},
    }
}

impl RunExperiments {
    /// Changes what is shown of the experiments of this name.
    pub fn update_experiment(&mut self, name: &String, update: &Update)
        ensures
            final(self)@ == (RunExperimentsView {
                experiments: changed_by_name(old(self)@.experiments, name@, update@),
                ..old(self)@
            }),
    {
        let ghost before = self@;
        let mut i: usize = 0;
        while i < self.experiments.len()
            invariant
                i <= self.experiments.len(),
                self.experiments.len() == before.experiments.len(),
                self.focus == before.focus,
                self.crate_list == before.crate_list,
                forall|j: int|
                    0 <= j < i ==> (#[trigger] self.experiments@[j])@ == changed_by_name(
                        before.experiments,
                        name@,
                        update@,
                    )[j],
                forall|j: int|
                    i <= j < self.experiments.len() ==> (#[trigger] self.experiments@[j])@
                        == before.experiments[j],
            decreases self.experiments.len() - i,
        {
            assert(self.experiments@[i as int]@ == before.experiments[i as int]);
            if self.experiments[i].name == *name {
                self.experiments[i].change(update);
            }
            i = i + 1;
        }
        assert(self@.experiments =~= changed_by_name(before.experiments, name@, update@));
    }

    /// Answers to a key that went down.
    pub fn press(&mut self, code: KeyCode)
        ensures
            final(self)@ == experiments_pressed(old(self)@, code),
    {
        let ghost before = self@;
        if let KeyCode::Tab = code {
            self.focus = self.focus.next();
        }
        match self.focus {
            RunExperimentsFocus::List => match code {
                KeyCode::Down => self.crate_list.select_next(),
                KeyCode::Up => self.crate_list.select_previous(),
                _ => {},
            },
            RunExperimentsFocus::Detail => {
                if let Some(i) = self.crate_list.selected {
                    if i < self.experiments.len() {
                        scroll_detail(&mut self.experiments[i].crate_detail, code);
                    }
                }
            },
        }
        assert(self@ =~= experiments_pressed(before, code));
    }
}

impl Root {
    /// Changes what is shown of the experiments of this name.
    pub fn update_experiment(&mut self, name: &String, update: Update)
        ensures
            final(self)@ == after_update(old(self)@, name@, update@),
    {
        match &mut self.progress {
            Progress::Initialized => {},
            Progress::RunExperiments(e) => e.update_experiment(name, &update),
        }
    }

    /// Shows how far the experiments of this name have come.
    pub fn update_progress(&mut self, name: &String, progress: RunExperimentProgress)
        ensures
            final(self)@ == after_update(old(self)@, name@, UpdateView::Progress(progress)),
    {
        self.update_experiment(name, Update::Progress(progress));
    }

    /// Answers to a message from the run.
    pub fn on_message(&mut self, message: Message)
        ensures
            final(self)@ == after_message(old(self)@, message@),
    {
        match message {
            Message::RunExperimentsStart { crates } => {
                self.progress = Progress::RunExperiments(RunExperiments::new(crates));
            },
            Message::ExperimentSkip { name } => self.update_progress(
                &name,
                RunExperimentProgress::Skipped,
            ),
            Message::ExperimentSetupFailure { name } => self.update_progress(
                &name,
                RunExperimentProgress::OriginalError,
            ),
            Message::ExperimentSetupSuccess { name } => self.update_progress(
                &name,
                RunExperimentProgress::Running,
            ),
            Message::ExperimentOriginalOutput { name, output } => self.update_experiment(
                &name,
                Update::OriginalOutput(output),
            ),
            Message::ExperimentOriginalSuccess { name } => self.update_progress(
                &name,
                RunExperimentProgress::Running,
            ),
            Message::ExperimentOriginalFailure { name } => self.update_progress(
                &name,
                RunExperimentProgress::OriginalError,
            ),
            Message::ExperimentOutput { name, output } => self.update_experiment(
                &name,
                Update::Output(output),
            ),
            Message::ExperimentSuccess { name } => self.update_progress(
                &name,
                RunExperimentProgress::Success,
            ),
            Message::ExperimentFailure { name } => self.update_progress(
                &name,
                RunExperimentProgress::Error,
            ),
        }
    }

    /// Answers to a key that went down.
    pub fn on_press(&mut self, code: KeyCode)
        ensures
            final(self)@ == after_press(old(self)@, code),
    {
        match code {
            KeyCode::F(1) => {
                self.focus = RootFocus::Progress;
            },
            KeyCode::F(2) => {
                self.focus = RootFocus::Tracing;
            },
            _ => {},
        }
        match &mut self.progress {
            Progress::Initialized => {},
            Progress::RunExperiments(e) => e.press(code),
        }
        if let RootFocus::Tracing = self.focus {
            match code {
                KeyCode::Right => self.tracing.offset.scroll_right(),
                KeyCode::Left => self.tracing.offset.scroll_left(),
                _ => scroll_detail(&mut self.tracing.offset, code),
            }
        }
    }

    /// Answers to an event; pressing `q` asks to leave.
    pub fn on_event(&mut self, event: MetaEvent) -> (r: Control)
        ensures
            final(self)@ == after_event(old(self)@, event@),
            r == if quits(event@) {
                Control::Quit
            } else {
                Control::Continue
            },
    {
        match event {
            MetaEvent::Terminal(TerminalEvent::Key { kind: KeyEventKind::Press, code }) => {
                if let KeyCode::Char('q') = code {
                    return Control::Quit;
                }
                self.on_press(code);
            },
            MetaEvent::Terminal(_) => {},
            MetaEvent::Program(message) => self.on_message(message),
            MetaEvent::Tracing(trace) => self.tracing.push(trace),
            MetaEvent::Runner => {},
        }
        Control::Continue
    }
}

} // verus!
