use vstd::prelude::*;
use crate::config::wtfm::{SectionStatus, WtfmConfig};
use crate::utils::helpers::{ValidationHelper, is_blank, version_ok};
use crate::utils::messages::Messages;
use crate::wizard::prompt::{Answer, Notice, Prompt, choice_below, is_select, is_text, owned, views};
use crate::wizard::sections::{
    SectionKind, consistent, mark, only_touches, same_fields, settle, status_of,
};

verus! {

/// Where the project flow stands.
#[derive(Debug, PartialEq)]
pub enum ProjectFlow {
    /// The project is named already: edit it, skip or go back.
    Menu,
    /// Asking for the name.
    Name,
    /// Asking for the description, the name given.
    Description { name: String },
    /// Asking for the version, name and description given.
    Version { name: String, description: String },
}

/// Where the project flow starts: at the name on a fresh descriptor, at the
/// edit menu otherwise.
pub open spec fn project_entry(c: WtfmConfig) -> ProjectFlow {
    if c.project_name@.len() == 0 {
        ProjectFlow::Name
    } else {
        ProjectFlow::Menu
    }
}

/// Starts the project flow.
pub fn project_begin(config: &WtfmConfig, notes: &mut Vec<Notice>) -> (r: ProjectFlow)
    ensures
        r == project_entry(*config),
{
    notes.push(Notice::Tips(owned(Messages::PROJECT_TIPS)));
    if config.project_name.as_str().is_empty() {
        ProjectFlow::Name
    } else {
        ProjectFlow::Menu
    }
}

/// The question the project flow asks in each state: the three fields are
/// asked pre-filled with their current values, the version with 0.1.0 as
/// its default.
pub open spec fn project_prompt_is(flow: ProjectFlow, c: WtfmConfig, p: Prompt) -> bool {
    match flow {
        ProjectFlow::Menu => is_select(
            p,
            "What would you like to do?"@,
            seq!["Edit project details"@, "Skip"@, "Back"@],
            0,
        ),
        ProjectFlow::Name => is_text(p, "Project name"@, c.project_name@, false),
        ProjectFlow::Description { .. } => is_text(p, "Project description"@, c.description@, true),
        ProjectFlow::Version { .. } => p matches Prompt::Text { label, initial, default, allow_empty }
            && label@ == "Version (X.Y.Z)"@ && initial@ == c.version@ && default is Some
            && default->0@ == "0.1.0"@ && !allow_empty,
    }
}

/// The question the project flow asks in `flow`.
pub fn project_prompt(flow: &ProjectFlow, config: &WtfmConfig) -> (r: Prompt)
    ensures
        project_prompt_is(*flow, *config, r),
{
    match flow {
        ProjectFlow::Menu => {
            let items = vec![owned("Edit project details"), owned("Skip"), owned("Back")];
            assert(views(items@) =~= seq!["Edit project details"@, "Skip"@, "Back"@]);
            Prompt::Select { label: owned("What would you like to do?"), items, start: 0 }
        },
        ProjectFlow::Name => Prompt::Text {
            label: owned("Project name"),
            initial: config.project_name.clone(),
            default: None,
            allow_empty: false,
        },
        ProjectFlow::Description { .. } => Prompt::Text {
            label: owned("Project description"),
            initial: config.description.clone(),
            default: None,
            allow_empty: true,
        },
        ProjectFlow::Version { .. } => Prompt::Text {
            label: owned("Version (X.Y.Z)"),
            initial: config.version.clone(),
            default: Some(owned("0.1.0")),
            allow_empty: false,
        },
    }
}

/// Records the project's name, description and version, and marks the
/// section `Configured`.
pub fn set_identity(config: &mut WtfmConfig, name: String, description: String, version: String)
    ensures
        final(config).project_name == name,
        final(config).description == description,
        final(config).version == version,
        status_of(SectionKind::Project, *final(config)) == SectionStatus::Configured,
        only_touches(SectionKind::Project, *old(config), *final(config)),
{
    config.project_name = name;
    config.description = description;
    config.version = version;
    mark(SectionKind::Project, config, SectionStatus::Configured);
}

/// The project's fields are `name`, `description` and `version`, and the
/// section is `Configured` when the name is not empty.
pub open spec fn identity_is(
    c: WtfmConfig,
    name: String,
    description: String,
    version: Seq<char>,
) -> bool {
    &&& c.project_name == name
    &&& c.description == description
    &&& c.version@ == version
    &&& (name@.len() > 0 ==> status_of(SectionKind::Project, c) == SectionStatus::Configured)
}

/// What one answer does in the project flow: to the descriptor `before`,
/// giving `after`, and to the flow, giving `r`. A name must not be blank
/// and a version must have the expected shape (an empty one stands for
/// 0.1.0); otherwise the question is asked again.
pub open spec fn project_step_post(
    flow: ProjectFlow,
    a: Answer,
    before: WtfmConfig,
    after: WtfmConfig,
    r: Option<ProjectFlow>,
) -> bool {
    &&& only_touches(SectionKind::Project, before, after)
    &&& consistent(SectionKind::Project, after)
    &&& match flow {
        ProjectFlow::Menu => same_fields(before, after) && r == (if a == Answer::Choice(0) {
            Some(ProjectFlow::Name)
        } else if a == Answer::Choice(1) || a == Answer::Choice(2) {
            None
        } else {
            Some(flow)
        }),
        ProjectFlow::Name => same_fields(before, after) && if a is Text && !is_blank(a->Text_0@) {
            a->Text_0@.len() > 0 && r == Some(ProjectFlow::Description { name: a->Text_0 })
        } else {
            r == Some(flow)
        },
        ProjectFlow::Description { name } => same_fields(before, after) && if a is Text {
            r == Some(ProjectFlow::Version { name, description: a->Text_0 })
        } else {
            r == Some(flow)
        },
        ProjectFlow::Version { name, description } => if a is Text && a->Text_0@.len() > 0
            && version_ok(a->Text_0@) {
            r is None && identity_is(after, name, description, a->Text_0@)
        } else if a is Text && a->Text_0@.len() == 0 && version_ok("0.1.0"@) {
            r is None && identity_is(after, name, description, "0.1.0"@)
        } else {
            same_fields(before, after) && r == Some(flow)
        },
    }
}

fn project_apply(
    flow: ProjectFlow,
    config: &mut WtfmConfig,
    answer: Answer,
    notes: &mut Vec<Notice>,
) -> (r: Option<ProjectFlow>)
    ensures
        project_step_post(flow, answer, *old(config), *final(config), r),
{
    let r = match flow {
        ProjectFlow::Menu => match choice_below(&answer, 3) {
            Some(0) => Some(ProjectFlow::Name),
            Some(_) => None,
            None => Some(ProjectFlow::Menu),
        },
        ProjectFlow::Name => match answer {
            Answer::Text(name) => match ValidationHelper::validate_project_name(name.as_str()) {
                Ok(()) => Some(ProjectFlow::Description { name }),
                Err(m) => {
                    notes.push(Notice::Error(m));
                    Some(ProjectFlow::Name)
                },
            },
            _ => Some(ProjectFlow::Name),
        },
        ProjectFlow::Description { name } => match answer {
            Answer::Text(description) => Some(ProjectFlow::Version { name, description }),
            _ => Some(ProjectFlow::Description { name }),
        },
        ProjectFlow::Version { name, description } => match answer {
            Answer::Text(text) => {
                let version = if text.as_str().is_empty() {
                    owned("0.1.0")
                } else {
                    text
                };
                match ValidationHelper::validate_version(version.as_str()) {
                    Ok(()) => {
                        set_identity(config, name, description, version);
                        None
                    },
                    Err(_) => {
                        notes.push(Notice::Error(owned(Messages::ERR_INVALID_VERSION)));
                        Some(ProjectFlow::Version { name, description })
                    },
                }
            },
            _ => Some(ProjectFlow::Version { name, description }),
        },
    };
    settle(SectionKind::Project, config);
    r
}

/// Takes the user's answer in `flow`: applies it to the descriptor and
/// returns where the flow goes next, or `None` when it is over. A blank name
/// or a malformed version is refused with an error notice and asked again;
/// an answer of the wrong kind is asked again. Afterwards the section's
/// status agrees with its fields.
pub fn project_step(
    flow: ProjectFlow,
    config: &mut WtfmConfig,
    answer: Answer,
    notes: &mut Vec<Notice>,
) -> (r: Option<ProjectFlow>)
    ensures
        project_step_post(flow, answer, *old(config), *final(config), r),
{
    project_apply(flow, config, answer, notes)
}

} // verus!
