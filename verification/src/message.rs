//! What the run tells the terminal.

use vstd::prelude::*;

use crate::registry::{crate_views, Crate, CrateView};
use crate::state::{OutputView, RunExperimentOutput};

verus! {

/// A step of the run that the terminal shows.
#[derive(Debug)]
pub enum Message {
    RunExperimentsStart { crates: Vec<Crate> },
    ExperimentSkip { name: String },
    ExperimentSetupFailure { name: String },
    ExperimentSetupSuccess { name: String },
    ExperimentOriginalOutput { name: String, output: RunExperimentOutput },
    ExperimentOriginalSuccess { name: String },
    ExperimentOriginalFailure { name: String },
    ExperimentOutput { name: String, output: RunExperimentOutput },
    ExperimentSuccess { name: String },
    ExperimentFailure { name: String },
}

/// The model of a [`Message`].
pub enum MessageView {
    RunExperimentsStart { crates: Seq<CrateView> },
    ExperimentSkip { name: Seq<char> },
    ExperimentSetupFailure { name: Seq<char> },
    ExperimentSetupSuccess { name: Seq<char> },
    ExperimentOriginalOutput { name: Seq<char>, output: OutputView },
    ExperimentOriginalSuccess { name: Seq<char> },
    ExperimentOriginalFailure { name: Seq<char> },
    ExperimentOutput { name: Seq<char>, output: OutputView },
    ExperimentSuccess { name: Seq<char> },
    ExperimentFailure { name: Seq<char> },
}

impl View for Message {
    type V = MessageView;

    open spec fn view(&self) -> MessageView {
        match self {
            Message::RunExperimentsStart { crates } => MessageView::RunExperimentsStart {
                crates: crate_views(crates@),
            },
            Message::ExperimentSkip { name } => MessageView::ExperimentSkip { name: name@ },
            Message::ExperimentSetupFailure { name } => MessageView::ExperimentSetupFailure {
                name: name@,
            },
            Message::ExperimentSetupSuccess { name } => MessageView::ExperimentSetupSuccess {
                name: name@,
            },
            Message::ExperimentOriginalOutput { name, output } =>
                MessageView::ExperimentOriginalOutput { name: name@, output: output@ },
            Message::ExperimentOriginalSuccess { name } => MessageView::ExperimentOriginalSuccess {
                name: name@,
            },
            Message::ExperimentOriginalFailure { name } => MessageView::ExperimentOriginalFailure {
                name: name@,
            },
            Message::ExperimentOutput { name, output } => MessageView::ExperimentOutput {
                name: name@,
                output: output@,
            },
            Message::ExperimentSuccess { name } => MessageView::ExperimentSuccess { name: name@ },
            Message::ExperimentFailure { name } => MessageView::ExperimentFailure { name: name@ },
        }
    }
}

/// The models of a list of messages.
pub open spec fn message_views(messages: Seq<Message>) -> Seq<MessageView> {
    messages.map_values(|m: Message| m@)
}

} // verus!
