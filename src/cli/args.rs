use vstd::prelude::*;

verus! {

/// The command line: one subcommand.
pub struct Cli {
    pub command: Commands,
}

/// The subcommands, each with the folders it works on.
pub enum Commands {
    /// Generate documentation into `output` from the project in `project_folder`.
    Generate { output: String, project_folder: String },
    /// Analyze the project.
    Analyze { project_folder: String },
    /// Show project info.
    Info { project_folder: String },
    /// Show who wrote the tool.
    Author { project_folder: String },
    /// Edit the configuration, one section or all of it.
    Edit { project_folder: String, section: Option<String> },
}

} // verus!
