//! The command surface of the tool: each subcommand's arguments as plain
//! data, and the subcommand tree. Argument parsing lives with the caller,
//! which mirrors these shapes for its command-line front end.

use vstd::prelude::*;

verus! {

/// Arguments of the chat command.
pub struct ChatArgs {
    /// Name of a persistent session to load and keep saving.
    pub persist: Option<String>,
    /// List the available sessions instead of chatting.
    pub list: bool,
}

/// Arguments of the corpus command.
pub struct CorpusArgs {
    /// An example argument.
    pub example_arg: Option<String>,
}

/// Arguments of the infer command.
pub struct InferArgs {
    /// Path of the file to generate or refine.
    pub path: String,
    /// A check script that validates the output.
    pub check: Option<String>,
    /// Instructions for the generation.
    pub instructions: Option<String>,
}

/// Arguments of the issue-create subcommand.
pub struct CreateArgs {
    /// Title of the issue.
    pub title: String,
}

/// Arguments of the issue-label subcommand.
pub struct LabelArgs {
    /// The issue to label.
    pub id: u32,
}

/// Arguments of the issue-update subcommand.
pub struct UpdateArgs {
    /// The issue to update.
    pub id: u32,
}

/// Arguments of the workon command.
pub struct WorkonArgs {
    /// Path of the file to work on.
    pub path: String,
    /// Name of a persistent session to load and keep saving.
    pub persist: Option<String>,
}

/// Arguments of the plot command.
pub struct PlotArgs {
    /// What to plot, in natural language.
    pub description: String,
    /// Where the image goes.
    pub output: String,
    /// A check script that validates the output.
    pub check: Option<String>,
}

/// The issue subcommands.
pub enum IssueCommands {
    /// Create a new issue.
    Create,
    /// Update an existing issue.
    Update(UpdateArgs),
    /// Label an existing issue.
    Label(LabelArgs),
}

/// The top-level subcommands.
pub enum Commands {
    /// Initial setup and first upload.
    Init,
    /// Chat with the corpus.
    Chat(ChatArgs),
    /// Find the diff and reconcile with the remote corpus.
    Sync,
    /// Work on one file.
    Workon(WorkonArgs),
    /// Infer one file.
    Infer(InferArgs),
    /// Manage issues.
    Issue(IssueCommands),
    /// Generate a plot.
    Plot(PlotArgs),
}

} // verus!
