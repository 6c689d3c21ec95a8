use vstd::prelude::*;
use crate::config::wtfm::{SectionStatus, WtfmConfig};
use crate::utils::helpers::is_blank;
use crate::utils::messages::Messages;
use crate::wizard::prompt::{Answer, Notice, Prompt, choice_below, is_select, owned, views};
use crate::wizard::sections::{
    SectionKind, consistent, mark, only_touches, same_fields, settle, status_of,
};
use crate::wizard::sections::list_task::{
    ListTarget, ListTask, list_after, start_reorder, task_next, task_prompt, task_prompt_is,
    task_step,
};

verus! {

/// Where the installation flow stands.
#[derive(Debug, PartialEq)]
pub enum InstallFlow {
    /// Both lists empty: adding prerequisites, then steps.
    FreshPrerequisites,
    /// Both lists were empty: adding steps after the prerequisites.
    FreshSteps,
    /// The first-time menu: which list to edit, skip or back.
    Menu,
    /// The revisit menu, shown again after each task until "Done".
    EditMenu,
    /// Choosing what to do with the prerequisites.
    PrerequisiteActions { in_edit: bool },
    /// Choosing what to do with the steps.
    StepActions { in_edit: bool },
    /// A task on one of the lists; after it the flow returns to the revisit
    /// menu if `in_edit`, and ends otherwise.
    Task { target: ListTarget, task: ListTask, in_edit: bool },
}

/// Where the installation flow starts for a first-time fill.
pub open spec fn install_run_entry(c: WtfmConfig) -> InstallFlow {
    if c.prerequisites@.len() == 0 && c.install_steps@.len() == 0 {
        InstallFlow::FreshPrerequisites
    } else {
        InstallFlow::Menu
    }
}

/// Where the installation flow starts for a revisit: as a first-time fill
/// when both lists are empty.
pub open spec fn install_edit_entry(c: WtfmConfig) -> InstallFlow {
    if c.prerequisites@.len() == 0 && c.install_steps@.len() == 0 {
        install_run_entry(c)
    } else {
        InstallFlow::EditMenu
    }
}

/// Starts the installation flow for a first-time fill.
pub fn install_begin_run(config: &WtfmConfig, notes: &mut Vec<Notice>) -> (r: InstallFlow)
    ensures
        r == install_run_entry(*config),
{
    notes.push(Notice::Tips(owned(Messages::INSTALL_TIPS)));
    if config.prerequisites.len() == 0 && config.install_steps.len() == 0 {
        notes.push(Notice::Line(owned("Add prerequisites (empty line to finish):")));
        InstallFlow::FreshPrerequisites
    } else {
        InstallFlow::Menu
    }
}

/// Starts the installation flow for a revisit.
pub fn install_begin_edit(config: &WtfmConfig, notes: &mut Vec<Notice>) -> (r: InstallFlow)
    ensures
        r == install_edit_entry(*config),
{
    if config.prerequisites.len() == 0 && config.install_steps.len() == 0 {
        return install_begin_run(config, notes);
    }
    notes.push(Notice::Header(owned("Installation Configuration")));
    InstallFlow::EditMenu
}

fn target_list(t: ListTarget, config: &WtfmConfig) -> (r: &Vec<String>)
    ensures
        t == ListTarget::Steps ==> r@ == config.install_steps@,
        t != ListTarget::Steps ==> r@ == config.prerequisites@,
{
    match t {
        ListTarget::Steps => &config.install_steps,
        _ => &config.prerequisites,
    }
}

/// The list a task of the installation flow works on.
pub open spec fn target_of(t: ListTarget, c: WtfmConfig) -> Seq<String> {
    if t == ListTarget::Steps {
        c.install_steps@
    } else {
        c.prerequisites@
    }
}

/// The actions offered on the prerequisites; a revisit adds "Back".
pub open spec fn prerequisite_actions(in_edit: bool) -> Seq<Seq<char>> {
    let base = seq!["Add new"@, "Remove existing"@, "Edit existing"@, "Replace all"@];
    if in_edit {
        base.push("Back"@)
    } else {
        base
    }
}

/// The actions offered on the steps; a revisit adds "Back".
pub open spec fn step_actions(in_edit: bool) -> Seq<Seq<char>> {
    let base = seq![
        "Add new"@,
        "Remove existing"@,
        "Edit existing"@,
        "Reorder steps"@,
        "Replace all"@,
    ];
    if in_edit {
        base.push("Back"@)
    } else {
        base
    }
}

/// The question the installation flow asks in each state.
pub open spec fn install_prompt_is(flow: InstallFlow, c: WtfmConfig, p: Prompt) -> bool {
    match flow {
        InstallFlow::FreshPrerequisites => task_prompt_is(
            ListTask::Append,
            ListTarget::Prerequisites,
            c.prerequisites@,
            p,
        ),
        InstallFlow::FreshSteps => task_prompt_is(ListTask::Append, ListTarget::Steps, c.install_steps@, p),
        InstallFlow::Menu => is_select(
            p,
            "What would you like to do?"@,
            seq!["Edit prerequisites"@, "Edit installation steps"@, "Skip"@, "Back"@],
            0,
        ),
        InstallFlow::EditMenu => is_select(
            p,
            "What would you like to edit?"@,
            seq!["Edit prerequisites"@, "Edit installation steps"@, "Done"@],
            0,
        ),
        InstallFlow::PrerequisiteActions { in_edit } => is_select(
            p,
            "Choose action"@,
            prerequisite_actions(in_edit),
            0,
        ),
        InstallFlow::StepActions { in_edit } => is_select(p, "Choose action"@, step_actions(in_edit), 0),
        InstallFlow::Task { target, task, .. } => task_prompt_is(task, target, target_of(target, c), p),
    }
}

/// The question the installation flow asks in `flow`.
pub fn install_prompt(flow: &InstallFlow, config: &WtfmConfig) -> (r: Prompt)
    ensures
        install_prompt_is(*flow, *config, r),
{
    match flow {
        InstallFlow::FreshPrerequisites => task_prompt(
            &ListTask::Append,
            ListTarget::Prerequisites,
            &config.prerequisites,
        ),
        InstallFlow::FreshSteps => task_prompt(&ListTask::Append, ListTarget::Steps, &config.install_steps),
        InstallFlow::Menu => {
            let items = vec![
                owned("Edit prerequisites"),
                owned("Edit installation steps"),
                owned("Skip"),
                owned("Back"),
            ];
            assert(views(items@) =~= seq![
                "Edit prerequisites"@,
                "Edit installation steps"@,
                "Skip"@,
                "Back"@,
            ]);
            Prompt::Select { label: owned("What would you like to do?"), items, start: 0 }
        },
        InstallFlow::EditMenu => {
            let items = vec![owned("Edit prerequisites"), owned("Edit installation steps"), owned("Done")];
            assert(views(items@) =~= seq!["Edit prerequisites"@, "Edit installation steps"@, "Done"@]);
            Prompt::Select { label: owned("What would you like to edit?"), items, start: 0 }
        },
        InstallFlow::PrerequisiteActions { in_edit } => {
            let mut items = vec![
                owned("Add new"),
                owned("Remove existing"),
                owned("Edit existing"),
                owned("Replace all"),
            ];
            assert(views(items@) =~= seq!["Add new"@, "Remove existing"@, "Edit existing"@, "Replace all"@]);
            if *in_edit {
                items.push(owned("Back"));
            }
            assert(views(items@) =~= prerequisite_actions(*in_edit));
            Prompt::Select { label: owned("Choose action"), items, start: 0 }
        },
        InstallFlow::StepActions { in_edit } => {
            let mut items = vec![
                owned("Add new"),
                owned("Remove existing"),
                owned("Edit existing"),
                owned("Reorder steps"),
                owned("Replace all"),
            ];
            assert(views(items@) =~= seq![
                "Add new"@,
                "Remove existing"@,
                "Edit existing"@,
                "Reorder steps"@,
                "Replace all"@,
            ]);
            if *in_edit {
                items.push(owned("Back"));
            }
            assert(views(items@) =~= step_actions(*in_edit));
            Prompt::Select { label: owned("Choose action"), items, start: 0 }
        },
        InstallFlow::Task { target, task, .. } => task_prompt(task, *target, target_list(*target, config)),
    }
}

/// The task an installation flow is in, if any.
pub open spec fn install_task_of(r: Option<InstallFlow>) -> Option<ListTask> {
    match r {
        Some(InstallFlow::Task { task, .. }) => Some(task),
        _ => None,
    }
}

/// Where the flow goes when a task on `target` goes on as `t` or ends: back
/// to the revisit menu in a revisit, out of the routine otherwise.
pub open spec fn install_after(t: Option<ListTask>, target: ListTarget, in_edit: bool) -> Option<InstallFlow> {
    match t {
        Some(task) => Some(InstallFlow::Task { target, task, in_edit }),
        None => back_to(in_edit),
    }
}

/// Back to the revisit menu in a revisit, out of the routine otherwise.
pub open spec fn back_to(in_edit: bool) -> Option<InstallFlow> {
    if in_edit {
        Some(InstallFlow::EditMenu)
    } else {
        None
    }
}

/// `r` is the task `task` on `target`.
pub open spec fn starts(r: Option<InstallFlow>, target: ListTarget, task: ListTask, in_edit: bool) -> bool {
    r == Some(InstallFlow::Task { target, task, in_edit })
}

/// `r` starts collecting a new list for `target`.
pub open spec fn starts_replace(r: Option<InstallFlow>, target: ListTarget, in_edit: bool) -> bool {
    r matches Some(InstallFlow::Task { target: t, task: ListTask::Replace { items }, in_edit: e })
        && t == target && items@.len() == 0 && e == in_edit
}

/// Where choosing action `c` on the prerequisites leads, given the list.
pub open spec fn prerequisite_action_next(c: usize, in_edit: bool, list: Seq<String>, r: Option<InstallFlow>) -> bool {
    let t = ListTarget::Prerequisites;
    if c == 0 {
        starts(r, t, ListTask::Append, in_edit)
    } else if c == 1 {
        if list.len() == 0 {
            r == back_to(in_edit)
        } else {
            starts(r, t, ListTask::PickToRemove { confirm: in_edit }, in_edit)
        }
    } else if c == 2 {
        if list.len() == 0 {
            r == back_to(in_edit)
        } else {
            starts(r, t, ListTask::PickToRewrite { cancellable: !in_edit }, in_edit)
        }
    } else if c == 3 {
        starts_replace(r, t, in_edit)
    } else {
        r == back_to(in_edit)
    }
}

/// Where choosing action `c` on the steps leads, given the list.
pub open spec fn step_action_next(c: usize, in_edit: bool, list: Seq<String>, r: Option<InstallFlow>) -> bool {
    let t = ListTarget::Steps;
    if c == 0 {
        starts(r, t, ListTask::Append, in_edit)
    } else if c == 1 {
        if list.len() == 0 {
            r == back_to(in_edit)
        } else {
            starts(r, t, ListTask::PickToRemove { confirm: in_edit }, in_edit)
        }
    } else if c == 2 {
        if list.len() == 0 {
            r == back_to(in_edit)
        } else {
            starts(r, t, ListTask::PickToRewrite { cancellable: !in_edit }, in_edit)
        }
    } else if c == 3 {
        if list.len() > 1 {
            r matches Some(InstallFlow::Task { target: t2, task: ListTask::Reorder { pool, placed, cancellable }, in_edit: e })
                && t2 == t && pool@ == list && placed@.len() == 0 && cancellable == !in_edit
                && e == in_edit
        } else {
            r == back_to(in_edit)
        }
    } else if c == 4 {
        starts_replace(r, t, in_edit)
    } else {
        r == back_to(in_edit)
    }
}

/// The section's status is `Configured` when either list holds something
/// and `Skipped` when both are empty.
pub open spec fn install_recorded(after: WtfmConfig) -> bool {
    status_of(SectionKind::Installation, after) == if after.prerequisites@.len() > 0
        || after.install_steps@.len() > 0 {
        SectionStatus::Configured
    } else {
        SectionStatus::Skipped
    }
}

/// What one answer does in the installation flow: to the descriptor
/// `before`, giving `after`, and to the flow, giving `r`. Each menu choice
/// leads to its actions and each action to its task; a task changes its
/// list as `list_after` says and leaves the other as it was.
pub open spec fn install_step_post(
    flow: InstallFlow,
    a: Answer,
    before: WtfmConfig,
    after: WtfmConfig,
    r: Option<InstallFlow>,
) -> bool {
    &&& only_touches(SectionKind::Installation, before, after)
    &&& consistent(SectionKind::Installation, after)
    &&& match flow {
        InstallFlow::FreshPrerequisites => after.prerequisites@ == list_after(
            ListTask::Append,
            a,
            before.prerequisites@,
        ) && after.install_steps@ == before.install_steps@ && r == (if a is Text && is_blank(
            a->Text_0@,
        ) {
            Some(InstallFlow::FreshSteps)
        } else {
            Some(flow)
        }),
        InstallFlow::FreshSteps => after.install_steps@ == list_after(
            ListTask::Append,
            a,
            before.install_steps@,
        ) && after.prerequisites@ == before.prerequisites@ && if a is Text && is_blank(
            a->Text_0@,
        ) {
            r is None && install_recorded(after)
        } else {
            r == Some(flow)
        },
        InstallFlow::Menu => same_fields(before, after) && r == (if a == Answer::Choice(0) {
            Some(InstallFlow::PrerequisiteActions { in_edit: false })
        } else if a == Answer::Choice(1) {
            Some(InstallFlow::StepActions { in_edit: false })
        } else if a == Answer::Choice(2) || a == Answer::Choice(3) {
            None
        } else {
            Some(flow)
        }),
        InstallFlow::EditMenu => same_fields(before, after) && if a == Answer::Choice(0) {
            r == Some(InstallFlow::PrerequisiteActions { in_edit: true })
        } else if a == Answer::Choice(1) {
            r == Some(InstallFlow::StepActions { in_edit: true })
        } else if a == Answer::Choice(2) {
            r is None && install_recorded(after)
        } else {
            r == Some(flow)
        },
        InstallFlow::PrerequisiteActions { in_edit } => same_fields(before, after) && if a is Choice
            && a->Choice_0 < prerequisite_actions(in_edit).len() {
            prerequisite_action_next(a->Choice_0, in_edit, before.prerequisites@, r)
        } else {
            r == Some(flow)
        },
        InstallFlow::StepActions { in_edit } => same_fields(before, after) && if a is Choice
            && a->Choice_0 < step_actions(in_edit).len() {
            step_action_next(a->Choice_0, in_edit, before.install_steps@, r)
        } else {
            r == Some(flow)
        },
        InstallFlow::Task { target, task, in_edit } => (if target == ListTarget::Steps {
            after.install_steps@ == list_after(task, a, before.install_steps@)
                && after.prerequisites@ == before.prerequisites@
        } else {
            after.prerequisites@ == list_after(task, a, before.prerequisites@)
                && after.install_steps@ == before.install_steps@
        }) && task_next(task, a, target_of(target, before), install_task_of(r)) && r
            == install_after(install_task_of(r), target, in_edit),
    }
}

fn after_task(t: Option<ListTask>, target: ListTarget, in_edit: bool) -> (r: Option<InstallFlow>)
    ensures
        r == install_after(t, target, in_edit),
{
    match t {
        Some(task) => Some(InstallFlow::Task { target, task, in_edit }),
        None => {
            if in_edit {
                Some(InstallFlow::EditMenu)
            } else {
                None
            }
        },
    }
}

fn prerequisite_action(
    choice: usize,
    in_edit: bool,
    config: &WtfmConfig,
    notes: &mut Vec<Notice>,
) -> (r: Option<InstallFlow>)
    ensures
        prerequisite_action_next(choice, in_edit, config.prerequisites@, r),
{
    let back = if in_edit {
        Some(InstallFlow::EditMenu)
    } else {
        None
    };
    let t = ListTarget::Prerequisites;
    if choice == 0 {
        notes.push(Notice::Line(owned("Add prerequisites (empty line to finish):")));
        Some(InstallFlow::Task { target: t, task: ListTask::Append, in_edit })
    } else if choice == 1 {
        if config.prerequisites.len() == 0 {
            notes.push(Notice::Warning(owned("No prerequisites to remove")));
            back
        } else {
            Some(InstallFlow::Task { target: t, task: ListTask::PickToRemove { confirm: in_edit }, in_edit })
        }
    } else if choice == 2 {
        if config.prerequisites.len() == 0 {
            notes.push(Notice::Warning(owned("No prerequisites to edit")));
            back
        } else {
            Some(InstallFlow::Task { target: t, task: ListTask::PickToRewrite { cancellable: !in_edit }, in_edit })
        }
    } else if choice == 3 {
        notes.push(Notice::Line(owned("Add prerequisites (empty line to finish):")));
        Some(InstallFlow::Task { target: t, task: ListTask::Replace { items: Vec::new() }, in_edit })
    } else {
        back
    }
}

fn step_action(
    choice: usize,
    in_edit: bool,
    config: &WtfmConfig,
    notes: &mut Vec<Notice>,
) -> (r: Option<InstallFlow>)
    ensures
        step_action_next(choice, in_edit, config.install_steps@, r),
{
    let back = if in_edit {
        Some(InstallFlow::EditMenu)
    } else {
        None
    };
    let t = ListTarget::Steps;
    if choice == 0 {
        notes.push(Notice::Line(owned("Add installation steps (empty line to finish):")));
        Some(InstallFlow::Task { target: t, task: ListTask::Append, in_edit })
    } else if choice == 1 {
        if config.install_steps.len() == 0 {
            notes.push(Notice::Warning(owned("No steps to remove")));
            back
        } else {
            Some(InstallFlow::Task { target: t, task: ListTask::PickToRemove { confirm: in_edit }, in_edit })
        }
    } else if choice == 2 {
        if config.install_steps.len() == 0 {
            notes.push(Notice::Warning(owned("No steps to edit")));
            back
        } else {
            Some(InstallFlow::Task { target: t, task: ListTask::PickToRewrite { cancellable: !in_edit }, in_edit })
        }
    } else if choice == 3 {
        if config.install_steps.len() > 1 {
            notes.push(Notice::Line(owned("Select steps in the desired order:")));
            Some(InstallFlow::Task { target: t, task: start_reorder(&config.install_steps, !in_edit), in_edit })
        } else {
            notes.push(Notice::Warning(owned("Not enough steps to reorder")));
            back
        }
    } else if choice == 4 {
        notes.push(Notice::Line(owned("Add installation steps (empty line to finish):")));
        Some(InstallFlow::Task { target: t, task: ListTask::Replace { items: Vec::new() }, in_edit })
    } else {
        back
    }
}

fn install_apply(
    flow: InstallFlow,
    config: &mut WtfmConfig,
    answer: Answer,
    notes: &mut Vec<Notice>,
) -> (r: Option<InstallFlow>)
    ensures
        install_step_post(flow, answer, *old(config), *final(config), r),
{
    let r = match flow {
        InstallFlow::FreshPrerequisites => {
            match task_step(ListTask::Append, &mut config.prerequisites, answer, notes) {
                Some(_) => Some(InstallFlow::FreshPrerequisites),
                None => {
                    notes.push(Notice::Line(owned("Add installation steps (empty line to finish):")));
                    Some(InstallFlow::FreshSteps)
                },
            }
        },
        InstallFlow::FreshSteps => {
            match task_step(ListTask::Append, &mut config.install_steps, answer, notes) {
                Some(_) => Some(InstallFlow::FreshSteps),
                None => {
                    if config.prerequisites.len() == 0 && config.install_steps.len() == 0 {
                        mark(SectionKind::Installation, config, SectionStatus::Skipped);
                    }
                    None
                },
            }
        },
        InstallFlow::Menu => match choice_below(&answer, 4) {
            Some(0) => Some(InstallFlow::PrerequisiteActions { in_edit: false }),
            Some(1) => Some(InstallFlow::StepActions { in_edit: false }),
            Some(_) => None,
            None => Some(InstallFlow::Menu),
        },
        InstallFlow::EditMenu => match choice_below(&answer, 3) {
            Some(0) => Some(InstallFlow::PrerequisiteActions { in_edit: true }),
            Some(1) => Some(InstallFlow::StepActions { in_edit: true }),
            Some(_) => {
                if config.prerequisites.len() > 0 || config.install_steps.len() > 0 {
                    mark(SectionKind::Installation, config, SectionStatus::Configured);
                } else {
                    mark(SectionKind::Installation, config, SectionStatus::Skipped);
                }
                None
            },
            None => Some(InstallFlow::EditMenu),
        },
        InstallFlow::PrerequisiteActions { in_edit } => {
            let n: usize = if in_edit {
                5
            } else {
                4
            };
            match choice_below(&answer, n) {
                Some(c) => prerequisite_action(c, in_edit, config, notes),
                None => Some(InstallFlow::PrerequisiteActions { in_edit }),
            }
        },
        InstallFlow::StepActions { in_edit } => {
            let n: usize = if in_edit {
                6
            } else {
                5
            };
            match choice_below(&answer, n) {
                Some(c) => step_action(c, in_edit, config, notes),
                None => Some(InstallFlow::StepActions { in_edit }),
            }
        },
        InstallFlow::Task { target, task, in_edit } => {
            let t = match target {
                ListTarget::Steps => task_step(task, &mut config.install_steps, answer, notes),
                _ => task_step(task, &mut config.prerequisites, answer, notes),
            };
            after_task(t, target, in_edit)
        },
    };
    settle(SectionKind::Installation, config);
    r
}

/// Takes the user's answer in `flow`: applies it to the descriptor and
/// returns where the flow goes next, or `None` when it is over. An answer
/// of the wrong kind is asked again. Afterwards the section's status is
/// `Configured` exactly when either list holds something.
pub fn install_step(
    flow: InstallFlow,
    config: &mut WtfmConfig,
    answer: Answer,
    notes: &mut Vec<Notice>,
) -> (r: Option<InstallFlow>)
    ensures
        install_step_post(flow, answer, *old(config), *final(config), r),
{
    install_apply(flow, config, answer, notes)
}

} // verus!
