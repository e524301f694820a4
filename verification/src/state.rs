//! What the terminal shows.

use vstd::prelude::*;
use vstd::string::*;
use vstd::utf8::{decode_utf8, valid_utf8};

use crate::outside::{from_utf8_lossy, utf8_lossy};
use crate::registry::{crate_views, Crate, CrateView};
use crate::scroll::{no_selection, not_scrolled, ListState, ScrollState};
use crate::trace::{message_text, Trace, TraceView, trace_views};

verus! {

/// Which tab is in front.
#[derive(Debug, Copy, Clone, PartialEq, Eq, Structural)]
pub enum RootFocus {
    Progress,
    Tracing,
}

impl Default for RootFocus {
    fn default() -> (r: RootFocus)
        ensures
            r == RootFocus::Progress,
    {
        RootFocus::Progress
    }
}

impl RootFocus {
    /// The place of a tab among the tabs.
    pub open spec fn place(self) -> usize {
        match self {
            RootFocus::Progress => 0,
            RootFocus::Tracing => 1,
        }
    }

    /// The place of the tab among the tabs.
    pub fn nth(&self) -> (r: usize)
        ensures
            r == self.place(),
    {
        match self {
            RootFocus::Progress => 0,
            RootFocus::Tracing => 1,
        }
    }
}

/// Which half of the progress tab takes the keys.
#[derive(Debug, Copy, Clone, PartialEq, Eq, Structural)]
pub enum RunExperimentsFocus {
    List,
    Detail,
}

impl Default for RunExperimentsFocus {
    fn default() -> (r: RunExperimentsFocus)
        ensures
            r == RunExperimentsFocus::List,
    {
        RunExperimentsFocus::List
    }
}

impl RunExperimentsFocus {
    /// The half that follows, the first one following the last.
    pub open spec fn following(self) -> RunExperimentsFocus {
        match self {
            RunExperimentsFocus::List => RunExperimentsFocus::Detail,
            RunExperimentsFocus::Detail => RunExperimentsFocus::List,
        }
    }

    /// The half that follows.
    pub fn next(&self) -> (r: RunExperimentsFocus)
        ensures
            r == self.following(),
    {
        match self {
            RunExperimentsFocus::List => RunExperimentsFocus::Detail,
            RunExperimentsFocus::Detail => RunExperimentsFocus::List,
        }
    }

    /// The list takes the keys.
    pub fn is_list(&self) -> (r: bool)
        ensures
            r == (*self is List),
    {
        matches!(self, RunExperimentsFocus::List)
    }

    /// The details take the keys.
    pub fn is_detail(&self) -> (r: bool)
        ensures
            r == (*self is Detail),
    {
        matches!(self, RunExperimentsFocus::Detail)
    }
}

/// How far an experiment has come.
#[derive(Debug, Copy, Clone, PartialEq, Eq, Structural)]
pub enum RunExperimentProgress {
    Pending,
    Skipped,
    Running,
    Success,
    OriginalError,
    Error,
}

impl Default for RunExperimentProgress {
    fn default() -> (r: RunExperimentProgress)
        ensures
            r == RunExperimentProgress::Pending,
    {
        RunExperimentProgress::Pending
    }
}

/// How the name of an experiment is drawn in the list.
#[derive(Debug, Copy, Clone, PartialEq, Eq, Structural)]
pub enum EntryStyle {
    Plain,
    Dim,
    Cyan,
    Green,
    Yellow,
    Red,
}

impl RunExperimentProgress {
    /// The style that tells how far an experiment has come.
    pub open spec fn shown(self) -> EntryStyle {
        match self {
            RunExperimentProgress::Pending => EntryStyle::Plain,
            RunExperimentProgress::Skipped => EntryStyle::Dim,
            RunExperimentProgress::Running => EntryStyle::Cyan,
            RunExperimentProgress::Success => EntryStyle::Green,
            RunExperimentProgress::OriginalError => EntryStyle::Yellow,
            RunExperimentProgress::Error => EntryStyle::Red,
        }
    }

    /// The style that tells how far an experiment has come.
    pub fn style(&self) -> (r: EntryStyle)
        ensures
            r == self.shown(),
    {
        match self {
            RunExperimentProgress::Pending => EntryStyle::Plain,
            RunExperimentProgress::Skipped => EntryStyle::Dim,
            RunExperimentProgress::Running => EntryStyle::Cyan,
            RunExperimentProgress::Success => EntryStyle::Green,
            RunExperimentProgress::OriginalError => EntryStyle::Yellow,
            RunExperimentProgress::Error => EntryStyle::Red,
        }
    }
}

/// What a command wrote.
#[derive(Debug)]
pub struct RunExperimentOutput {
    pub stdout: String,
    pub stderr: String,
}

/// The model of a [`RunExperimentOutput`].
pub struct OutputView {
    pub stdout: Seq<char>,
    pub stderr: Seq<char>,
}

impl View for RunExperimentOutput {
    type V = OutputView;

    open spec fn view(&self) -> OutputView {
        OutputView { stdout: self.stdout@, stderr: self.stderr@ }
    }
}

/// Nothing was written.
pub open spec fn no_output() -> OutputView {
    OutputView { stdout: Seq::empty(), stderr: Seq::empty() }
}

impl Default for RunExperimentOutput {
    fn default() -> (r: RunExperimentOutput)
        ensures
            r@ == no_output(),
    {
        RunExperimentOutput { stdout: String::new(), stderr: String::new() }
    }
}

/// The output whose texts these bytes stand for.
pub open spec fn output_of(stdout: Seq<u8>, stderr: Seq<u8>) -> OutputView {
    OutputView { stdout: utf8_lossy(stdout), stderr: utf8_lossy(stderr) }
}

impl RunExperimentOutput {
    /// Takes the two streams of a command for text.
    pub fn from_bytes(stdout: Vec<u8>, stderr: Vec<u8>) -> (r: RunExperimentOutput)
        ensures
            r@ == output_of(stdout@, stderr@),
            valid_utf8(stdout@) ==> r@.stdout == decode_utf8(stdout@),
            valid_utf8(stderr@) ==> r@.stderr == decode_utf8(stderr@),
    {
        RunExperimentOutput { stdout: from_utf8_lossy(&stdout), stderr: from_utf8_lossy(&stderr) }
    }

    /// A copy.
    pub fn copy(&self) -> (r: RunExperimentOutput)
        ensures
            r@ == self@,
    {
        RunExperimentOutput { stdout: self.stdout.clone(), stderr: self.stderr.clone() }
    }
}

/// An experiment on the screen.
pub struct RunExperiment {
    pub name: String,
    pub progress: RunExperimentProgress,
    pub original_output: RunExperimentOutput,
    pub output: RunExperimentOutput,
    pub crate_detail: ScrollState,
}

/// The model of a [`RunExperiment`].
pub struct RunExperimentView {
    pub name: Seq<char>,
    pub progress: RunExperimentProgress,
    pub original_output: OutputView,
    pub output: OutputView,
    pub crate_detail: ScrollState,
}

impl View for RunExperiment {
    type V = RunExperimentView;

    open spec fn view(&self) -> RunExperimentView {
        RunExperimentView {
            name: self.name@,
            progress: self.progress,
            original_output: self.original_output@,
            output: self.output@,
            crate_detail: self.crate_detail,
        }
    }
}

/// The models of a list of experiments.
pub open spec fn experiment_views(experiments: Seq<RunExperiment>) -> Seq<RunExperimentView> {
    experiments.map_values(|e: RunExperiment| e@)
}

/// An experiment that has not begun.
pub open spec fn pending_experiment(name: Seq<char>) -> RunExperimentView {
    RunExperimentView {
        name,
        progress: RunExperimentProgress::Pending,
        original_output: no_output(),
        output: no_output(),
        crate_detail: not_scrolled(),
    }
}

/// The experiments, and where the user is among them.
pub struct RunExperiments {
    pub experiments: Vec<RunExperiment>,
    pub focus: RunExperimentsFocus,
    pub crate_list: ListState,
}

/// The model of [`RunExperiments`].
#[verifier::ext_equal]
pub struct RunExperimentsView {
    pub experiments: Seq<RunExperimentView>,
    pub focus: RunExperimentsFocus,
    pub crate_list: ListState,
}

impl View for RunExperiments {
    type V = RunExperimentsView;

    open spec fn view(&self) -> RunExperimentsView {
        RunExperimentsView {
            experiments: experiment_views(self.experiments@),
            focus: self.focus,
            crate_list: self.crate_list,
        }
    }
}

/// One experiment for each crate, in order, none of them begun.
pub open spec fn new_experiments(crates: Seq<CrateView>) -> RunExperimentsView {
    RunExperimentsView {
        experiments: crates.map_values(|c: CrateView| pending_experiment(c.name)),
        focus: RunExperimentsFocus::List,
        crate_list: no_selection(),
    }
}

impl RunExperiments {
    /// Sets up an experiment for each crate.
    pub fn new(crates: Vec<Crate>) -> (r: RunExperiments)
        ensures
            r@ == new_experiments(crate_views(crates@)),
    {
        let mut experiments: Vec<RunExperiment> = Vec::new();
        let mut i: usize = 0;
        while i < crates.len()
            invariant
                i <= crates.len(),
                experiments.len() == i,
                forall|j: int|
                    0 <= j < i ==> (#[trigger] experiments@[j])@ == pending_experiment(
                        crates@[j].name@,
                    ),
            decreases crates.len() - i,
        {
            experiments.push(
                RunExperiment {
                    name: crates[i].name.clone(),
                    progress: RunExperimentProgress::default(),
                    original_output: RunExperimentOutput::default(),
                    output: RunExperimentOutput::default(),
                    crate_detail: ScrollState::default(),
                },
            );
            i = i + 1;
        }
        let r = RunExperiments {
            experiments,
            focus: RunExperimentsFocus::default(),
            crate_list: ListState::default(),
        };
        assert(r@.experiments =~= new_experiments(crate_views(crates@)).experiments);
        r
    }
}

/// What there is to show of the run.
pub enum Progress {
    Initialized,
    RunExperiments(RunExperiments),
}

/// The model of [`Progress`].
pub enum ProgressView {
    Initialized,
    RunExperiments(RunExperimentsView),
}

impl View for Progress {
    type V = ProgressView;

    open spec fn view(&self) -> ProgressView {
        match self {
            Progress::Initialized => ProgressView::Initialized,
            Progress::RunExperiments(e) => ProgressView::RunExperiments(e@),
        }
    }
}

/// What the program reported about its own work, and how far it is scrolled.
pub struct Tracing {
    pub traces: Vec<Trace>,
    pub offset: ScrollState,
}

/// The model of [`Tracing`].
#[verifier::ext_equal]
pub struct TracingView {
    pub traces: Seq<TraceView>,
    pub offset: ScrollState,
}

impl View for Tracing {
    type V = TracingView;

    open spec fn view(&self) -> TracingView {
        TracingView { traces: trace_views(self.traces@), offset: self.offset }
    }
}

impl Default for Tracing {
    fn default() -> (r: Tracing)
        ensures
            r@ == (TracingView { traces: Seq::empty(), offset: not_scrolled() }),
    {
        let r = Tracing { traces: Vec::new(), offset: ScrollState::default() };
        assert(r@.traces =~= Seq::empty());
        r
    }
}

impl Tracing {
    /// Adds a report at the end.
    pub fn push(&mut self, t: Trace)
        ensures
            final(self)@ == (TracingView { traces: old(self)@.traces.push(t@), ..old(self)@ }),
    {
        self.traces.push(t);
        assert(self@.traces =~= old(self)@.traces.push(t@));
    }

    /// The messages of all reports, each on a line of its own.
    pub fn messages(&self) -> (r: String)
        ensures
            r@ == message_text(self@.traces),
    {
        let mut acc: String = String::new();
        let mut i: usize = 0;
        assert(trace_views(self.traces@).take(0) =~= Seq::empty());
        while i < self.traces.len()
            invariant
                i <= self.traces.len(),
                acc@ == message_text(trace_views(self.traces@).take(i as int)),
            decreases self.traces.len() - i,
        {
            let ghost seen = trace_views(self.traces@).take(i + 1);
            assert(seen.drop_last() =~= trace_views(self.traces@).take(i as int));
            assert(seen.last() == self.traces@[i as int]@);
            acc.append(self.traces[i].message.as_str());
            acc.append("\n");
            i = i + 1;
        }
        assert(trace_views(self.traces@).take(self.traces.len() as int) =~= self@.traces);
        acc
    }
}

/// All that the terminal shows.
pub struct Root {
    pub focus: RootFocus,
    pub progress: Progress,
    pub tracing: Tracing,
}

/// The model of a [`Root`].
pub struct RootView {
    pub focus: RootFocus,
    pub progress: ProgressView,
    pub tracing: TracingView,
}

impl View for Root {
    type V = RootView;

    open spec fn view(&self) -> RootView {
        RootView { focus: self.focus, progress: self.progress@, tracing: self.tracing@ }
    }
}

/// The screen before anything has happened.
pub open spec fn first_screen() -> RootView {
    RootView {
        focus: RootFocus::Progress,
        progress: ProgressView::Initialized,
        tracing: TracingView { traces: Seq::empty(), offset: not_scrolled() },
    }
}

impl Default for Root {
    fn default() -> (r: Root)
        ensures
            r@ == first_screen(),
    {
        Root {
            focus: RootFocus::default(),
            progress: Progress::Initialized,
            tracing: Tracing::default(),
        }
    }
}

/// The keys go round: handed over as often as there are halves, they are back where they were.
pub proof fn law_focus_goes_round(focus: RunExperimentsFocus)
    ensures
        focus.following() != focus,
        focus.following().following() == focus,
{
}

} // verus!
