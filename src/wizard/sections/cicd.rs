use vstd::prelude::*;
use crate::config::wtfm::{SectionStatus, WtfmConfig};
use crate::utils::messages::Messages;
use crate::utils::helpers::is_blank;
use crate::wizard::lists::{index_set, keep_indices, without_indices};
use crate::wizard::prompt::{
    Answer, Notice, Prompt, all_below, choice_below, is_select, is_text, normalize_choices, owned,
    views,
};
use crate::wizard::sections::{
    SectionKind, consistent, mark, only_touches, same_fields, settle, status_of,
};
use crate::wizard::sections::list_task::{ListTask, copy_texts, list_after, task_step, unchecked};

verus! {

/// Where the CI/CD flow stands.
#[derive(Debug, PartialEq)]
pub enum CiCdFlow {
    /// CI/CD is off: asking whether to set it up.
    Ask,
    /// Setting up: asking for the platform.
    Platform,
    /// Setting up: choosing features from the catalog.
    Features,
    /// Setting up: adding branches until a blank line.
    Branches,
    /// CI/CD is on: edit settings, disable, skip or back.
    Menu,
    /// Choosing which setting to edit.
    EditWhat,
    /// Asking for a new platform.
    EditPlatform,
    /// Choosing features again, the current ones checked.
    EditFeatures,
    /// Editing a working copy of the branches: add, remove or done.
    BranchMenu { branches: Vec<String> },
    /// Asking for a branch to add to the working copy.
    BranchName { branches: Vec<String> },
    /// Choosing a branch to remove from the working copy; the user may cancel.
    BranchRemove { branches: Vec<String> },
}

/// Where the CI/CD flow starts: at the question when it is off, at the menu
/// when it is on. A revisit starts at the same place.
pub open spec fn cicd_entry(c: WtfmConfig) -> CiCdFlow {
    if c.setup_ci {
        CiCdFlow::Menu
    } else {
        CiCdFlow::Ask
    }
}

/// Starts the CI/CD flow.
pub fn cicd_begin(config: &WtfmConfig, notes: &mut Vec<Notice>) -> (r: CiCdFlow)
    ensures
        r == cicd_entry(*config),
{
    notes.push(Notice::Tips(owned(Messages::CICD_TIPS)));
    if config.setup_ci {
        CiCdFlow::Menu
    } else {
        CiCdFlow::Ask
    }
}

/// The names of the CI/CD features on offer.
pub open spec fn ci_catalog() -> Seq<Seq<char>> {
    seq![
        "Build"@,
        "Test"@,
        "Lint"@,
        "Coverage"@,
        "Documentation"@,
        "Release"@,
        "Docker"@,
        "Deploy"@,
    ]
}

/// The CI/CD features on offer.
pub fn ci_feature_catalog() -> (r: Vec<String>)
    ensures
        r@.len() == 8,
        views(r@) == ci_catalog(),
{
    let r = vec![
        owned("Build"),
        owned("Test"),
        owned("Lint"),
        owned("Coverage"),
        owned("Documentation"),
        owned("Release"),
        owned("Docker"),
        owned("Deploy"),
    ];
    assert(views(r@) =~= ci_catalog());
    r
}

/// The catalog features at the positions chosen in `sel`, in catalog order,
/// where every chosen position is in the catalog.
pub fn chosen_features(sel: &Vec<usize>) -> (r: Option<Vec<String>>)
    ensures
        r is Some <==> all_below(sel@, 8),
        r is Some ==> views(r->0@) == keep_indices(ci_catalog(), index_set(sel@)),
{
    let norm = match normalize_choices(sel, 8) {
        Some(n) => n,
        None => return None,
    };
    let catalog = ci_feature_catalog();
    let ghost keep = Set::new(|p: int| !index_set(sel@).contains(p));
    let mut r: Vec<String> = Vec::new();
    let mut i: usize = 0;
    while i < 8
        invariant
            i <= 8,
            catalog@.len() == 8,
            views(catalog@) == ci_catalog(),
            index_set(norm@) == index_set(sel@),
            keep == Set::new(|p: int| !index_set(sel@).contains(p)),
            views(r@) == without_indices(ci_catalog().subrange(0, i as int), keep),
        decreases 8 - i,
    {
        let mut found = false;
        let mut m: usize = 0;
        while m < norm.len()
            invariant
                m <= norm@.len(),
                found == exists|k: int| 0 <= k < m && #[trigger] norm@[k] as int == i as int,
            decreases norm@.len() - m,
        {
            if norm[m] == i {
                found = true;
            }
            m += 1;
        }
        assert(found == index_set(norm@).contains(i as int));
        proof {
            let pre = ci_catalog().subrange(0, i as int);
            let next = ci_catalog().subrange(0, i as int + 1);
            assert(next.drop_last() =~= pre);
        }
        if found {
            let ghost before = r@;
            assert(views(catalog@)[i as int] == catalog@[i as int]@);
            r.push(catalog[i].clone());
            assert(views(r@) =~= views(before).push(ci_catalog()[i as int]));
        }
        i += 1;
    }
    assert(ci_catalog().subrange(0, 8) =~= ci_catalog());
    Some(r)
}

/// For each catalog item, whether `chosen` holds it.
fn checked_in(catalog: &Vec<String>, chosen: &Vec<String>) -> (r: Vec<bool>)
    ensures
        r@.len() == catalog@.len(),
        forall|i: int| 0 <= i < catalog@.len() ==> r@[i] == exists|j: int| 0 <= j < chosen@.len() && #[trigger] chosen@[j]@ == catalog@[i]@,
{
    let mut r: Vec<bool> = Vec::new();
    let mut i: usize = 0;
    while i < catalog.len()
        invariant
            i <= catalog@.len(),
            r@.len() == i,
            forall|m: int| 0 <= m < i ==> r@[m] == exists|j: int| 0 <= j < chosen@.len() && #[trigger] chosen@[j]@ == catalog@[m]@,
        decreases catalog@.len() - i,
    {
        let mut found = false;
        let mut j: usize = 0;
        while j < chosen.len()
            invariant
                i < catalog@.len(),
                j <= chosen@.len(),
                found == exists|m: int| 0 <= m < j && #[trigger] chosen@[m]@ == catalog@[i as int]@,
            decreases chosen@.len() - j,
        {
            if chosen[j] == catalog[i] {
                found = true;
            }
            j += 1;
        }
        r.push(found);
        i += 1;
    }
    r
}

/// The question the CI/CD flow asks in each state.
pub open spec fn cicd_prompt_is(flow: CiCdFlow, c: WtfmConfig, p: Prompt) -> bool {
    match flow {
        CiCdFlow::Ask => is_select(p, "Would you like to setup CI/CD?"@, seq!["Yes"@, "No"@], 0),
        CiCdFlow::Platform => is_text(p, "CI/CD platform"@, Seq::empty(), false),
        CiCdFlow::Features => p matches Prompt::MultiSelect { label, items, checked } && label@
            == "Select CI/CD features"@ && views(items@) == ci_catalog() && checked@.len() == 8
            && forall|i: int| 0 <= i < 8 ==> !checked@[i],
        CiCdFlow::Branches => is_text(p, "Branch"@, Seq::empty(), true),
        CiCdFlow::Menu => is_select(
            p,
            "What would you like to do?"@,
            seq!["Edit CI/CD settings"@, "Disable CI/CD"@, "Skip"@, "Back"@],
            0,
        ),
        CiCdFlow::EditWhat => is_select(
            p,
            "What would you like to edit?"@,
            seq!["Edit platform"@, "Edit features"@, "Edit branch configuration"@],
            0,
        ),
        CiCdFlow::EditPlatform => is_text(
            p,
            "CI/CD platform"@,
            match c.ci_platform {
                Some(s) => s@,
                None => Seq::empty(),
            },
            false,
        ),
        CiCdFlow::EditFeatures => p matches Prompt::MultiSelect { label, items, checked } && label@
            == "Select CI/CD features"@ && views(items@) == ci_catalog() && checked@.len() == 8
            && forall|i: int|
            0 <= i < 8 ==> checked@[i] == exists|j: int|
                0 <= j < c.ci_features@.len() && #[trigger] c.ci_features@[j]@ == ci_catalog()[i],
        CiCdFlow::BranchMenu { .. } => is_select(
            p,
            "Branch configuration"@,
            seq!["Add branch"@, "Remove branch"@, "Done"@],
            0,
        ),
        CiCdFlow::BranchName { .. } => is_text(p, "Branch name"@, Seq::empty(), false),
        CiCdFlow::BranchRemove { branches } => p matches Prompt::SelectOrCancel { label, items }
            && label@ == "Select branch to remove"@ && items@ == branches@,
    }
}

/// The question the CI/CD flow asks in `flow`.
pub fn cicd_prompt(flow: &CiCdFlow, config: &WtfmConfig) -> (r: Prompt)
    ensures
        cicd_prompt_is(*flow, *config, r),
{
    let r = match flow {
        CiCdFlow::Ask => {
            let items = vec![owned("Yes"), owned("No")];
            assert(views(items@) =~= seq!["Yes"@, "No"@]);
            Prompt::Select { label: owned("Would you like to setup CI/CD?"), items, start: 0 }
        },
        CiCdFlow::Platform => Prompt::Text {
            label: owned("CI/CD platform"),
            initial: String::new(),
            default: None,
            allow_empty: false,
        },
        CiCdFlow::Features => Prompt::MultiSelect {
            label: owned("Select CI/CD features"),
            items: ci_feature_catalog(),
            checked: unchecked(8),
        },
        CiCdFlow::Branches => Prompt::Text {
            label: owned("Branch"),
            initial: String::new(),
            default: None,
            allow_empty: true,
        },
        CiCdFlow::Menu => {
            let items = vec![
                owned("Edit CI/CD settings"),
                owned("Disable CI/CD"),
                owned("Skip"),
                owned("Back"),
            ];
            assert(views(items@) =~= seq!["Edit CI/CD settings"@, "Disable CI/CD"@, "Skip"@, "Back"@]);
            Prompt::Select { label: owned("What would you like to do?"), items, start: 0 }
        },
        CiCdFlow::EditWhat => {
            let items = vec![
                owned("Edit platform"),
                owned("Edit features"),
                owned("Edit branch configuration"),
            ];
            assert(views(items@) =~= seq![
                "Edit platform"@,
                "Edit features"@,
                "Edit branch configuration"@,
            ]);
            Prompt::Select { label: owned("What would you like to edit?"), items, start: 0 }
        },
        CiCdFlow::EditPlatform => Prompt::Text {
            label: owned("CI/CD platform"),
            initial: match &config.ci_platform {
                Some(p) => p.clone(),
                None => String::new(),
            },
            default: None,
            allow_empty: false,
        },
        CiCdFlow::EditFeatures => {
            let catalog = ci_feature_catalog();
            let checked = checked_in(&catalog, &config.ci_features);
            assert forall|i: int| 0 <= i < 8 implies checked@[i] == exists|j: int|
                0 <= j < config.ci_features@.len() && #[trigger] config.ci_features@[j]@
                    == ci_catalog()[i] by {
                assert(views(catalog@)[i] == catalog@[i]@);
                if checked@[i] {
                    let j = choose|j: int| 0 <= j < config.ci_features@.len() && #[trigger] config.ci_features@[j]@ == catalog@[i]@;
                }
                if exists|j: int| 0 <= j < config.ci_features@.len() && #[trigger] config.ci_features@[j]@ == ci_catalog()[i] {
                    let j = choose|j: int| 0 <= j < config.ci_features@.len() && #[trigger] config.ci_features@[j]@ == ci_catalog()[i];
                    assert(config.ci_features@[j]@ == catalog@[i]@);
                }
            }
            Prompt::MultiSelect { label: owned("Select CI/CD features"), items: catalog, checked }
        },
        CiCdFlow::BranchMenu { .. } => {
            let items = vec![owned("Add branch"), owned("Remove branch"), owned("Done")];
            assert(views(items@) =~= seq!["Add branch"@, "Remove branch"@, "Done"@]);
            Prompt::Select { label: owned("Branch configuration"), items, start: 0 }
        },
        CiCdFlow::BranchName { .. } => Prompt::Text {
            label: owned("Branch name"),
            initial: String::new(),
            default: None,
            allow_empty: false,
        },
        CiCdFlow::BranchRemove { branches } => Prompt::SelectOrCancel {
            label: owned("Select branch to remove"),
            items: copy_texts(branches),
        },
    };
    r
}
/// Turns CI/CD off: no platform, features or branches, and the section
/// `Skipped`.
pub fn disable_ci(config: &mut WtfmConfig)
    ensures
        !final(config).setup_ci,
        final(config).ci_platform is None,
        final(config).ci_features@.len() == 0,
        final(config).ci_branches@.len() == 0,
        status_of(SectionKind::CiCd, *final(config)) == SectionStatus::Skipped,
        only_touches(SectionKind::CiCd, *old(config), *final(config)),
{
    config.setup_ci = false;
    config.ci_platform = None;
    config.ci_features.clear();
    config.ci_branches.clear();
    mark(SectionKind::CiCd, config, SectionStatus::Skipped);
}

/// Records the section `Configured` if CI/CD is on and `Skipped` if not.
fn finish(config: &mut WtfmConfig, notes: &mut Vec<Notice>)
    ensures
        status_of(SectionKind::CiCd, *final(config)) == if old(config).setup_ci {
            SectionStatus::Configured
        } else {
            SectionStatus::Skipped
        },
        same_fields(*old(config), *final(config)),
        only_touches(SectionKind::CiCd, *old(config), *final(config)),
{
    if config.setup_ci {
        mark(SectionKind::CiCd, config, SectionStatus::Configured);
    } else {
        mark(SectionKind::CiCd, config, SectionStatus::Skipped);
    }
    notes.push(Notice::Success(owned(Messages::SUCCESS_SECTION)));
}

/// The CI/CD fields other than the enabled flag are as in `a`.
pub open spec fn ci_details_same(a: WtfmConfig, b: WtfmConfig) -> bool {
    a.ci_platform == b.ci_platform && a.ci_features@ == b.ci_features@ && a.ci_branches@
        == b.ci_branches@
}

/// The routine ends, with the section `Configured` when CI/CD is on and
/// `Skipped` when it is off.
pub open spec fn ci_ends(after: WtfmConfig, r: Option<CiCdFlow>) -> bool {
    r is None && status_of(SectionKind::CiCd, after) == if after.setup_ci {
        SectionStatus::Configured
    } else {
        SectionStatus::Skipped
    }
}

/// What one answer does in the CI/CD flow: to the descriptor `before`,
/// giving `after`, and to the flow, giving `r`.
pub open spec fn cicd_step_post(
    flow: CiCdFlow,
    a: Answer,
    before: WtfmConfig,
    after: WtfmConfig,
    r: Option<CiCdFlow>,
) -> bool {
    &&& only_touches(SectionKind::CiCd, before, after)
    &&& consistent(SectionKind::CiCd, after)
    &&& match flow {
        CiCdFlow::Ask => if a == Answer::Choice(0) {
            after.setup_ci && ci_details_same(before, after) && r == Some(CiCdFlow::Platform)
        } else if a == Answer::Choice(1) {
            same_fields(before, after) && (!before.setup_ci ==> ci_ends(after, r))
        } else {
            same_fields(before, after) && r == Some(flow)
        },
        CiCdFlow::Platform => if a is Text {
            after.ci_platform == Some(a->Text_0) && after.setup_ci == before.setup_ci
                && after.ci_features@ == before.ci_features@ && after.ci_branches@
                == before.ci_branches@ && r == Some(CiCdFlow::Features)
        } else {
            same_fields(before, after) && r == Some(flow)
        },
        CiCdFlow::Features => if a is Choices && all_below(a->Choices_0@, 8) {
            views(after.ci_features@) == keep_indices(ci_catalog(), index_set(a->Choices_0@))
                && after.setup_ci == before.setup_ci && after.ci_platform == before.ci_platform
                && after.ci_branches@ == before.ci_branches@ && r == Some(CiCdFlow::Branches)
        } else {
            same_fields(before, after) && r == Some(flow)
        },
        CiCdFlow::Branches => after.ci_branches@ == list_after(
            ListTask::Append,
            a,
            before.ci_branches@,
        ) && after.setup_ci == before.setup_ci && after.ci_platform == before.ci_platform
            && after.ci_features@ == before.ci_features@ && if a is Text && is_blank(a->Text_0@) {
            ci_ends(after, r)
        } else {
            r == Some(flow)
        },
        CiCdFlow::Menu => if a == Answer::Choice(0) {
            same_fields(before, after) && r == Some(CiCdFlow::EditWhat)
        } else if a == Answer::Choice(1) {
            !after.setup_ci && after.ci_platform is None && after.ci_features@.len() == 0
                && after.ci_branches@.len() == 0 && ci_ends(after, r)
        } else if a == Answer::Choice(2) || a == Answer::Choice(3) {
            same_fields(before, after) && r is None
        } else {
            same_fields(before, after) && r == Some(flow)
        },
        CiCdFlow::EditWhat => same_fields(before, after) && if a == Answer::Choice(0) {
            r == Some(CiCdFlow::EditPlatform)
        } else if a == Answer::Choice(1) {
            r == Some(CiCdFlow::EditFeatures)
        } else if a == Answer::Choice(2) {
            r matches Some(CiCdFlow::BranchMenu { branches }) && branches@ == before.ci_branches@
        } else {
            r == Some(flow)
        },
        CiCdFlow::EditPlatform => if a is Text {
            after.ci_platform == Some(a->Text_0) && after.setup_ci == before.setup_ci
                && after.ci_features@ == before.ci_features@ && after.ci_branches@
                == before.ci_branches@ && ci_ends(after, r)
        } else {
            same_fields(before, after) && r == Some(flow)
        },
        CiCdFlow::EditFeatures => if a is Choices && all_below(a->Choices_0@, 8) {
            views(after.ci_features@) == keep_indices(ci_catalog(), index_set(a->Choices_0@))
                && after.setup_ci == before.setup_ci && after.ci_platform == before.ci_platform
                && after.ci_branches@ == before.ci_branches@ && ci_ends(after, r)
        } else {
            same_fields(before, after) && r == Some(flow)
        },
        CiCdFlow::BranchMenu { branches } => if a == Answer::Choice(2) {
            after.ci_branches@ == branches@ && after.setup_ci == before.setup_ci
                && after.ci_platform == before.ci_platform && after.ci_features@
                == before.ci_features@ && ci_ends(after, r)
        } else {
            same_fields(before, after) && if a == Answer::Choice(0) {
                r == Some(CiCdFlow::BranchName { branches })
            } else if a == Answer::Choice(1) {
                r == Some(CiCdFlow::BranchRemove { branches })
            } else {
                r == Some(flow)
            }
        },
        CiCdFlow::BranchName { branches } => same_fields(before, after) && if a is Text
            && a->Text_0@.len() > 0 {
            r matches Some(CiCdFlow::BranchMenu { branches: b2 }) && b2@ == branches@.push(
                a->Text_0,
            )
        } else {
            r == Some(flow)
        },
        CiCdFlow::BranchRemove { branches } => same_fields(before, after) && if a is Cancel {
            r == Some(CiCdFlow::BranchMenu { branches })
        } else if a is Choice && a->Choice_0 < branches@.len() {
            r matches Some(CiCdFlow::BranchMenu { branches: b2 }) && b2@ == branches@.remove(
                a->Choice_0 as int,
            )
        } else {
            r == Some(flow)
        },
    }
}

fn cicd_apply(
    flow: CiCdFlow,
    config: &mut WtfmConfig,
    answer: Answer,
    notes: &mut Vec<Notice>,
) -> (r: Option<CiCdFlow>)
    ensures
        cicd_step_post(flow, answer, *old(config), *final(config), r),
{
    let ghost before = *config;
    let r = match flow {
        CiCdFlow::Ask => match choice_below(&answer, 2) {
            Some(0) => {
                config.setup_ci = true;
                Some(CiCdFlow::Platform)
            },
            Some(_) => {
                if !config.setup_ci {
                    finish(config, notes);
                }
                None
            },
            None => Some(CiCdFlow::Ask),
        },
        CiCdFlow::Platform => match answer {
            Answer::Text(p) => {
                config.ci_platform = Some(p);
                Some(CiCdFlow::Features)
            },
            _ => Some(CiCdFlow::Platform),
        },
        CiCdFlow::Features => match answer {
            Answer::Choices(sel) => match chosen_features(&sel) {
                Some(features) => {
                    config.ci_features = features;
                    notes.push(Notice::Line(owned("Add branches (empty line to finish):")));
                    Some(CiCdFlow::Branches)
                },
                None => Some(CiCdFlow::Features),
            },
            _ => Some(CiCdFlow::Features),
        },
        CiCdFlow::Branches => {
            let ghost a = answer;
            match task_step(ListTask::Append, &mut config.ci_branches, answer, notes) {
                Some(_) => Some(CiCdFlow::Branches),
                None => {
                    finish(config, notes);
                    None
                },
            }
        },
        CiCdFlow::Menu => match choice_below(&answer, 4) {
            Some(0) => Some(CiCdFlow::EditWhat),
            Some(1) => {
                disable_ci(config);
                None
            },
            Some(_) => None,
            None => Some(CiCdFlow::Menu),
        },
        CiCdFlow::EditWhat => match choice_below(&answer, 3) {
            Some(0) => Some(CiCdFlow::EditPlatform),
            Some(1) => Some(CiCdFlow::EditFeatures),
            Some(_) => Some(CiCdFlow::BranchMenu { branches: copy_texts(&config.ci_branches) }),
            None => Some(CiCdFlow::EditWhat),
        },
        CiCdFlow::EditPlatform => match answer {
            Answer::Text(p) => {
                config.ci_platform = Some(p);
                finish(config, notes);
                None
            },
            _ => Some(CiCdFlow::EditPlatform),
        },
        CiCdFlow::EditFeatures => match answer {
            Answer::Choices(sel) => match chosen_features(&sel) {
                Some(features) => {
                    config.ci_features = features;
                    finish(config, notes);
                    None
                },
                None => Some(CiCdFlow::EditFeatures),
            },
            _ => Some(CiCdFlow::EditFeatures),
        },
        CiCdFlow::BranchMenu { branches } => match choice_below(&answer, 3) {
            Some(0) => Some(CiCdFlow::BranchName { branches }),
            Some(1) => Some(CiCdFlow::BranchRemove { branches }),
            Some(_) => {
                config.ci_branches = branches;
                finish(config, notes);
                None
            },
            None => Some(CiCdFlow::BranchMenu { branches }),
        },
        CiCdFlow::BranchName { branches } => match answer {
            Answer::Text(b) => {
                if b.as_str().is_empty() {
                    Some(CiCdFlow::BranchName { branches })
                } else {
                    let mut branches = branches;
                    branches.push(b);
                    Some(CiCdFlow::BranchMenu { branches })
                }
            },
            _ => Some(CiCdFlow::BranchName { branches }),
        },
        CiCdFlow::BranchRemove { branches } => match answer {
            Answer::Cancel => Some(CiCdFlow::BranchMenu { branches }),
            _ => match choice_below(&answer, branches.len()) {
                Some(i) => {
                    let mut branches = branches;
                    branches.remove(i);
                    Some(CiCdFlow::BranchMenu { branches })
                },
                None => Some(CiCdFlow::BranchRemove { branches }),
            },
        },
    };
    settle(SectionKind::CiCd, config);
    r
}

/// Takes the user's answer in `flow`: applies it to the descriptor and
/// returns where the flow goes next, or `None` when it is over. An answer of
/// the wrong kind is asked again. Afterwards the section's status agrees
/// with its fields.
pub fn cicd_step(
    flow: CiCdFlow,
    config: &mut WtfmConfig,
    answer: Answer,
    notes: &mut Vec<Notice>,
) -> (r: Option<CiCdFlow>)
    ensures
        cicd_step_post(flow, answer, *old(config), *final(config), r),
{
    cicd_apply(flow, config, answer, notes)
}

} // verus!
