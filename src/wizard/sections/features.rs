use vstd::prelude::*;
use crate::config::wtfm::{SectionStatus, WtfmConfig};
use crate::utils::messages::Messages;
use crate::wizard::prompt::{Answer, Notice, Prompt, choice_below, is_select, owned, views};
use crate::wizard::sections::{
    SectionKind, consistent, mark, only_touches, same_fields, settle, status_of,
};
use crate::wizard::sections::list_task::{
    ListTarget, ListTask, list_after, start_reorder, task_next, task_prompt, task_prompt_is,
    task_step,
};

verus! {

/// Where the features flow stands.
#[derive(Debug, PartialEq)]
pub enum FeaturesFlow {
    /// The first-time menu over a list that holds something.
    Menu,
    /// The revisit menu, shown again after each task until "Done".
    EditMenu,
    /// A task on the list; after it the flow returns to the revisit menu if
    /// `in_edit`, and ends otherwise.
    Task { task: ListTask, in_edit: bool },
}

/// Where the features flow starts for a first-time fill: adding items to
/// an empty list, the menu otherwise.
pub open spec fn features_run_entry(c: WtfmConfig) -> FeaturesFlow {
    if c.features@.len() == 0 {
        FeaturesFlow::Task { task: ListTask::Append, in_edit: false }
    } else {
        FeaturesFlow::Menu
    }
}

/// Where the features flow starts for a revisit: as a first-time fill on an
/// empty list, the revisit menu otherwise.
pub open spec fn features_edit_entry(c: WtfmConfig) -> FeaturesFlow {
    if c.features@.len() == 0 {
        features_run_entry(c)
    } else {
        FeaturesFlow::EditMenu
    }
}

/// Starts the features flow for a first-time fill.
pub fn features_begin_run(config: &WtfmConfig, notes: &mut Vec<Notice>) -> (r: FeaturesFlow)
    ensures
        r == features_run_entry(*config),
{
    notes.push(Notice::Tips(owned(Messages::FEATURES_TIPS)));
    if config.features.len() == 0 {
        notes.push(Notice::Line(owned("Add features (empty line to finish):")));
        FeaturesFlow::Task { task: ListTask::Append, in_edit: false }
    } else {
        FeaturesFlow::Menu
    }
}

/// Starts the features flow for a revisit.
pub fn features_begin_edit(config: &WtfmConfig, notes: &mut Vec<Notice>) -> (r: FeaturesFlow)
    ensures
        r == features_edit_entry(*config),
{
    if config.features.len() == 0 {
        return features_begin_run(config, notes);
    }
    notes.push(Notice::Header(owned("Current Features")));
    let mut i: usize = 0;
    while i < config.features.len()
        invariant
            i <= config.features@.len(),
        decreases config.features@.len() - i,
    {
        notes.push(Notice::Line(config.features[i].clone()));
        i += 1;
    }
    FeaturesFlow::EditMenu
}

/// The question the features flow asks in each state.
pub open spec fn features_prompt_is(flow: FeaturesFlow, c: WtfmConfig, p: Prompt) -> bool {
    match flow {
        FeaturesFlow::Menu => is_select(
            p,
            "What would you like to do?"@,
            seq![
                "Edit features"@,
                "Add features"@,
                "Remove features"@,
                "Reorder features"@,
                "Skip"@,
                "Back"@,
            ],
            0,
        ),
        FeaturesFlow::EditMenu => is_select(
            p,
            "What would you like to do?"@,
            seq![
                "Add features"@,
                "Remove features"@,
                "Edit features"@,
                "Reorder features"@,
                "Done"@,
            ],
            0,
        ),
        FeaturesFlow::Task { task, .. } => task_prompt_is(task, ListTarget::Features, c.features@, p),
    }
}

/// The question the features flow asks in `flow`.
pub fn features_prompt(flow: &FeaturesFlow, config: &WtfmConfig) -> (r: Prompt)
    ensures
        features_prompt_is(*flow, *config, r),
{
    match flow {
        FeaturesFlow::Menu => {
            let items = vec![
                owned("Edit features"),
                owned("Add features"),
                owned("Remove features"),
                owned("Reorder features"),
                owned("Skip"),
                owned("Back"),
            ];
            assert(views(items@) =~= seq![
                "Edit features"@,
                "Add features"@,
                "Remove features"@,
                "Reorder features"@,
                "Skip"@,
                "Back"@,
            ]);
            Prompt::Select { label: owned("What would you like to do?"), items, start: 0 }
        },
        FeaturesFlow::EditMenu => {
            let items = vec![
                owned("Add features"),
                owned("Remove features"),
                owned("Edit features"),
                owned("Reorder features"),
                owned("Done"),
            ];
            assert(views(items@) =~= seq![
                "Add features"@,
                "Remove features"@,
                "Edit features"@,
                "Reorder features"@,
                "Done"@,
            ]);
            Prompt::Select { label: owned("What would you like to do?"), items, start: 0 }
        },
        FeaturesFlow::Task { task, .. } => task_prompt(task, ListTarget::Features, &config.features),
    }
}

/// The task a features flow is in, if any.
pub open spec fn features_task_of(r: Option<FeaturesFlow>) -> Option<ListTask> {
    match r {
        Some(FeaturesFlow::Task { task, .. }) => Some(task),
        _ => None,
    }
}

/// Where the flow goes when a task goes on as `t` or ends: back to the
/// revisit menu in a revisit, out of the routine otherwise.
pub open spec fn features_after(t: Option<ListTask>, in_edit: bool) -> Option<FeaturesFlow> {
    match t {
        Some(task) => Some(FeaturesFlow::Task { task, in_edit }),
        None => if in_edit {
            Some(FeaturesFlow::EditMenu)
        } else {
            None
        },
    }
}

/// `r` starts reordering `list` by picking.
pub open spec fn starts_reorder(r: Option<FeaturesFlow>, list: Seq<String>, cancellable: bool, in_edit: bool) -> bool {
    r matches Some(FeaturesFlow::Task { task: ListTask::Reorder { pool, placed, cancellable: c }, in_edit: e })
        && pool@ == list && placed@.len() == 0 && c == cancellable && e == in_edit
}

fn after_task(t: Option<ListTask>, in_edit: bool) -> (r: Option<FeaturesFlow>)
    ensures
        r == features_after(t, in_edit),
{
    match t {
        Some(task) => Some(FeaturesFlow::Task { task, in_edit }),
        None => {
            if in_edit {
                Some(FeaturesFlow::EditMenu)
            } else {
                None
            }
        },
    }
}

/// What one answer does in the features flow: to the descriptor `before`,
/// giving `after`, and to the flow, giving `r`. Each menu choice starts its
/// task; a task changes the list as `list_after` says and, once over,
/// leads back to the revisit menu or out of the first-time routine. Leaving
/// the revisit menu records `Configured` if the list holds something and
/// `Skipped` if not.
pub open spec fn features_step_post(
    flow: FeaturesFlow,
    a: Answer,
    before: WtfmConfig,
    after: WtfmConfig,
    r: Option<FeaturesFlow>,
) -> bool {
    let n = before.features@.len();
    &&& only_touches(SectionKind::Features, before, after)
    &&& consistent(SectionKind::Features, after)
    &&& match flow {
        FeaturesFlow::Menu => same_fields(before, after) && if a == Answer::Choice(0) {
            r == Some(FeaturesFlow::Task { task: ListTask::PickToRewrite { cancellable: true }, in_edit: false })
        } else if a == Answer::Choice(1) {
            r == Some(FeaturesFlow::Task { task: ListTask::Append, in_edit: false })
        } else if a == Answer::Choice(2) {
            r == (if n == 0 {
                None
            } else {
                Some(FeaturesFlow::Task { task: ListTask::PickToRemove { confirm: false }, in_edit: false })
            })
        } else if a == Answer::Choice(3) {
            if n > 1 {
                starts_reorder(r, before.features@, true, false)
            } else {
                r is None
            }
        } else if a == Answer::Choice(4) || a == Answer::Choice(5) {
            r is None
        } else {
            r == Some(flow)
        },
        FeaturesFlow::EditMenu => same_fields(before, after) && if a == Answer::Choice(0) {
            r == Some(FeaturesFlow::Task { task: ListTask::Append, in_edit: true })
        } else if a == Answer::Choice(1) {
            r == (if n == 0 {
                Some(flow)
            } else {
                Some(FeaturesFlow::Task { task: ListTask::PickToRemove { confirm: true }, in_edit: true })
            })
        } else if a == Answer::Choice(2) {
            r == (if n == 0 {
                Some(flow)
            } else {
                Some(FeaturesFlow::Task { task: ListTask::PickToRewrite { cancellable: false }, in_edit: true })
            })
        } else if a == Answer::Choice(3) {
            if n > 1 {
                starts_reorder(r, before.features@, false, true)
            } else {
                r == Some(flow)
            }
        } else if a == Answer::Choice(4) {
            r is None && status_of(SectionKind::Features, after) == if n > 0 {
                SectionStatus::Configured
            } else {
                SectionStatus::Skipped
            }
        } else {
            r == Some(flow)
        },
        FeaturesFlow::Task { task, in_edit } => after.features@ == list_after(task, a, before.features@)
            && task_next(task, a, before.features@, features_task_of(r)) && r == features_after(
            features_task_of(r),
            in_edit,
        ),
    }
}

fn features_apply(
    flow: FeaturesFlow,
    config: &mut WtfmConfig,
    answer: Answer,
    notes: &mut Vec<Notice>,
) -> (r: Option<FeaturesFlow>)
    ensures
        features_step_post(flow, answer, *old(config), *final(config), r),
{
    let r = match flow {
        FeaturesFlow::Menu => match choice_below(&answer, 6) {
            Some(0) => Some(FeaturesFlow::Task { task: ListTask::PickToRewrite { cancellable: true }, in_edit: false }),
            Some(1) => {
                notes.push(Notice::Line(owned("Add new features (empty line to finish):")));
                Some(FeaturesFlow::Task { task: ListTask::Append, in_edit: false })
            },
            Some(2) => {
                if config.features.len() == 0 {
                    notes.push(Notice::Warning(owned("No features to remove")));
                    None
                } else {
                    Some(FeaturesFlow::Task { task: ListTask::PickToRemove { confirm: false }, in_edit: false })
                }
            },
            Some(3) => {
                if config.features.len() > 1 {
                    notes.push(Notice::Line(owned("Select features in the desired order:")));
                    Some(FeaturesFlow::Task { task: start_reorder(&config.features, true), in_edit: false })
                } else {
                    None
                }
            },
            Some(_) => None,
            None => Some(FeaturesFlow::Menu),
        },
        FeaturesFlow::EditMenu => match choice_below(&answer, 5) {
            Some(0) => {
                notes.push(Notice::Tips(owned(Messages::FEATURES_TIPS)));
                notes.push(Notice::Line(owned("Add new features (empty line to finish):")));
                Some(FeaturesFlow::Task { task: ListTask::Append, in_edit: true })
            },
            Some(1) => {
                if config.features.len() == 0 {
                    notes.push(Notice::Warning(owned("No features to remove")));
                    Some(FeaturesFlow::EditMenu)
                } else {
                    Some(FeaturesFlow::Task { task: ListTask::PickToRemove { confirm: true }, in_edit: true })
                }
            },
            Some(2) => {
                if config.features.len() == 0 {
                    notes.push(Notice::Warning(owned("No features to edit")));
                    Some(FeaturesFlow::EditMenu)
                } else {
                    Some(FeaturesFlow::Task { task: ListTask::PickToRewrite { cancellable: false }, in_edit: true })
                }
            },
            Some(3) => {
                if config.features.len() <= 1 {
                    notes.push(Notice::Warning(owned("Not enough features to reorder")));
                    Some(FeaturesFlow::EditMenu)
                } else {
                    notes.push(Notice::Header(owned("Reorder Features")));
                    notes.push(Notice::Line(owned("Select features in the desired order:")));
                    Some(FeaturesFlow::Task { task: start_reorder(&config.features, false), in_edit: true })
                }
            },
            Some(_) => {
                if config.features.len() > 0 {
                    mark(SectionKind::Features, config, SectionStatus::Configured);
                } else {
                    mark(SectionKind::Features, config, SectionStatus::Skipped);
                }
                None
            },
            None => Some(FeaturesFlow::EditMenu),
        },
        FeaturesFlow::Task { task, in_edit } => {
            let t = task_step(task, &mut config.features, answer, notes);
            after_task(t, in_edit)
        },
    };
    settle(SectionKind::Features, config);
    r
}

/// Takes the user's answer in `flow`: applies it to the descriptor and
/// returns where the flow goes next, or `None` when it is over. An answer
/// of the wrong kind is asked again. Afterwards the section's status is
/// `Configured` exactly when the list holds something.
pub fn features_step(
    flow: FeaturesFlow,
    config: &mut WtfmConfig,
    answer: Answer,
    notes: &mut Vec<Notice>,
) -> (r: Option<FeaturesFlow>)
    ensures
        features_step_post(flow, answer, *old(config), *final(config), r),
{
    features_apply(flow, config, answer, notes)
}

} // verus!
