use vstd::prelude::*;
use vstd::string::StringExecFns;
use crate::config::wtfm::{License, SectionStatus, WtfmConfig};
use crate::utils::messages::Messages;
use crate::wizard::prompt::{Answer, Notice, Prompt, choice_below, is_select, is_text, owned, views};
use crate::wizard::sections::{
    SectionKind, consistent, mark, only_touches, same_fields, settle, status_of,
};

verus! {

/// Where the license flow stands.
#[derive(Debug, PartialEq)]
pub enum LicenseFlow {
    /// A license is chosen already: change it, remove it, skip or back.
    Menu,
    /// Choosing a license from the catalog.
    Choose,
    /// A custom license: asking for its name.
    CustomName,
    /// A custom license: asking for its SPDX identifier.
    CustomId { name: String },
    /// A custom license: asking for its URL.
    CustomUrl { name: String, spdx_id: String },
    /// The revisit menu: change, remove or back.
    EditMenu,
    /// Asking whether to remove the license.
    ConfirmRemove,
}

/// Where the license flow starts for a first-time fill: at the catalog when
/// no license is chosen, at the menu otherwise.
pub open spec fn license_run_entry(c: WtfmConfig) -> LicenseFlow {
    if c.license is Some {
        LicenseFlow::Menu
    } else {
        LicenseFlow::Choose
    }
}

/// Where the license flow starts for a revisit: as a first-time fill when no
/// license is chosen, at the revisit menu otherwise.
pub open spec fn license_edit_entry(c: WtfmConfig) -> LicenseFlow {
    if c.license is Some {
        LicenseFlow::EditMenu
    } else {
        license_run_entry(c)
    }
}

/// Name, SPDX identifier and URL of the `i`-th license on offer.
pub open spec fn offered_license(i: int) -> (Seq<char>, Seq<char>, Seq<char>) {
    if i == 0 {
        ("MIT"@, "MIT"@, "https://opensource.org/licenses/MIT"@)
    } else if i == 1 {
        ("Apache 2.0"@, "Apache-2.0"@, "https://opensource.org/licenses/Apache-2.0"@)
    } else if i == 2 {
        ("GNU GPL v3"@, "GPL-3.0"@, "https://www.gnu.org/licenses/gpl-3.0.en.html"@)
    } else if i == 3 {
        ("BSD 3-Clause"@, "BSD-3-Clause"@, "https://opensource.org/licenses/BSD-3-Clause"@)
    } else {
        ("Custom"@, "Custom"@, Seq::empty())
    }
}

/// The parts of a license.
pub open spec fn license_parts(l: License) -> (Seq<char>, Seq<char>, Seq<char>) {
    (l.name@, l.spdx_id@, l.url@)
}

/// The licenses on offer; the last one, "Custom", asks for its details.
pub fn available_licenses() -> (r: Vec<License>)
    ensures
        r@.len() == 5,
        forall|i: int| 0 <= i < 5 ==> #[trigger] license_parts(r@[i]) == offered_license(i),
{
    vec![
        License {
            name: owned("MIT"),
            spdx_id: owned("MIT"),
            url: owned("https://opensource.org/licenses/MIT"),
        },
        License {
            name: owned("Apache 2.0"),
            spdx_id: owned("Apache-2.0"),
            url: owned("https://opensource.org/licenses/Apache-2.0"),
        },
        License {
            name: owned("GNU GPL v3"),
            spdx_id: owned("GPL-3.0"),
            url: owned("https://www.gnu.org/licenses/gpl-3.0.en.html"),
        },
        License {
            name: owned("BSD 3-Clause"),
            spdx_id: owned("BSD-3-Clause"),
            url: owned("https://opensource.org/licenses/BSD-3-Clause"),
        },
        License { name: owned("Custom"), spdx_id: owned("Custom"), url: String::new() },
    ]
}

/// Starts the license flow for a first-time fill.
pub fn license_begin_run(config: &WtfmConfig, notes: &mut Vec<Notice>) -> (r: LicenseFlow)
    ensures
        r == license_run_entry(*config),
{
    notes.push(Notice::Tips(owned(Messages::LICENSE_TIPS)));
    if config.license.is_some() {
        LicenseFlow::Menu
    } else {
        LicenseFlow::Choose
    }
}

/// Starts the license flow for a revisit, showing the current license.
pub fn license_begin_edit(config: &WtfmConfig, notes: &mut Vec<Notice>) -> (r: LicenseFlow)
    ensures
        r == license_edit_entry(*config),
{
    match &config.license {
        None => license_begin_run(config, notes),
        Some(l) => {
            notes.push(Notice::Header(owned("Current License")));
            notes.push(Notice::Line(owned("Name: ").concat(l.name.as_str())));
            notes.push(Notice::Line(owned("SPDX ID: ").concat(l.spdx_id.as_str())));
            if !l.url.as_str().is_empty() {
                notes.push(Notice::Line(owned("URL: ").concat(l.url.as_str())));
            }
            LicenseFlow::EditMenu
        },
    }
}

/// The names of the licenses on offer, in order.
pub open spec fn offered_names() -> Seq<Seq<char>> {
    seq!["MIT"@, "Apache 2.0"@, "GNU GPL v3"@, "BSD 3-Clause"@, "Custom"@]
}

/// The question the license flow asks in each state.
pub open spec fn license_prompt_is(flow: LicenseFlow, p: Prompt) -> bool {
    match flow {
        LicenseFlow::Menu => is_select(
            p,
            "What would you like to do?"@,
            seq!["Change license"@, "Remove license"@, "Skip"@, "Back"@],
            0,
        ),
        LicenseFlow::Choose => is_select(p, "Choose a license"@, offered_names(), 0),
        LicenseFlow::CustomName => is_text(p, "License name"@, Seq::empty(), false),
        LicenseFlow::CustomId { .. } => is_text(p, "SPDX identifier"@, Seq::empty(), false),
        LicenseFlow::CustomUrl { .. } => is_text(p, "License URL"@, Seq::empty(), false),
        LicenseFlow::EditMenu => is_select(
            p,
            "What would you like to do?"@,
            seq!["Change license"@, "Remove license"@, "Back"@],
            0,
        ),
        LicenseFlow::ConfirmRemove => is_select(
            p,
            "Are you sure you want to delete this?"@,
            seq!["Yes"@, "No"@],
            1,
        ),
    }
}

/// The question the license flow asks in `flow`.
pub fn license_prompt(flow: &LicenseFlow) -> (r: Prompt)
    ensures
        license_prompt_is(*flow, r),
{
    match flow {
        LicenseFlow::Menu => {
            let items = vec![
                owned("Change license"),
                owned("Remove license"),
                owned("Skip"),
                owned("Back"),
            ];
            assert(views(items@) =~= seq!["Change license"@, "Remove license"@, "Skip"@, "Back"@]);
            Prompt::Select { label: owned("What would you like to do?"), items, start: 0 }
        },
        LicenseFlow::Choose => {
            let licenses = available_licenses();
            let mut names: Vec<String> = Vec::new();
            let mut i: usize = 0;
            while i < licenses.len()
                invariant
                    i <= licenses@.len(),
                    licenses@.len() == 5,
                    forall|j: int| 0 <= j < 5 ==> #[trigger] license_parts(licenses@[j]) == offered_license(j),
                    names@.len() == i,
                    forall|m: int| 0 <= m < i ==> #[trigger] names@[m]@ == offered_names()[m],
                decreases licenses@.len() - i,
            {
                assert(license_parts(licenses@[i as int]) == offered_license(i as int));
                names.push(licenses[i].name.clone());
                i += 1;
            }
            assert(views(names@) =~= offered_names());
            Prompt::Select { label: owned("Choose a license"), items: names, start: 0 }
        },
        LicenseFlow::CustomName => Prompt::Text {
            label: owned("License name"),
            initial: String::new(),
            default: None,
            allow_empty: false,
        },
        LicenseFlow::CustomId { .. } => Prompt::Text {
            label: owned("SPDX identifier"),
            initial: String::new(),
            default: None,
            allow_empty: false,
        },
        LicenseFlow::CustomUrl { .. } => Prompt::Text {
            label: owned("License URL"),
            initial: String::new(),
            default: None,
            allow_empty: false,
        },
        LicenseFlow::EditMenu => {
            let items = vec![owned("Change license"), owned("Remove license"), owned("Back")];
            assert(views(items@) =~= seq!["Change license"@, "Remove license"@, "Back"@]);
            Prompt::Select { label: owned("What would you like to do?"), items, start: 0 }
        },
        LicenseFlow::ConfirmRemove => {
            let items = vec![owned("Yes"), owned("No")];
            assert(views(items@) =~= seq!["Yes"@, "No"@]);
            Prompt::Select { label: owned(Messages::CONFIRM_DELETE), items, start: 1 }
        },
    }
}

/// Records `license` and marks the section `Configured`.
pub fn set_license(config: &mut WtfmConfig, license: License)
    ensures
        final(config).license == Some(license),
        status_of(SectionKind::License, *final(config)) == SectionStatus::Configured,
        only_touches(SectionKind::License, *old(config), *final(config)),
{
    config.license = Some(license);
    mark(SectionKind::License, config, SectionStatus::Configured);
}

/// Removes the license and marks the section `Skipped`.
pub fn remove_license(config: &mut WtfmConfig)
    ensures
        final(config).license is None,
        status_of(SectionKind::License, *final(config)) == SectionStatus::Skipped,
        only_touches(SectionKind::License, *old(config), *final(config)),
{
    config.license = None;
    mark(SectionKind::License, config, SectionStatus::Skipped);
}

/// The license is removed and the section `Skipped`.
pub open spec fn license_removed(after: WtfmConfig) -> bool {
    after.license is None && status_of(SectionKind::License, after) == SectionStatus::Skipped
}

/// What one answer does in the license flow: to the descriptor `before`,
/// giving `after`, and to the flow, giving `r`. Choosing a license of the
/// catalog, or finishing a custom one, records it and marks the section
/// `Configured`; removing it marks the section `Skipped`.
pub open spec fn license_step_post(
    flow: LicenseFlow,
    a: Answer,
    before: WtfmConfig,
    after: WtfmConfig,
    r: Option<LicenseFlow>,
) -> bool {
    &&& only_touches(SectionKind::License, before, after)
    &&& consistent(SectionKind::License, after)
    &&& match flow {
        LicenseFlow::Menu => if a == Answer::Choice(1) {
            r is None && license_removed(after)
        } else {
            same_fields(before, after) && r == (if a == Answer::Choice(0) {
                Some(LicenseFlow::Choose)
            } else if a == Answer::Choice(2) || a == Answer::Choice(3) {
                None
            } else {
                Some(flow)
            })
        },
        LicenseFlow::Choose => if a is Choice && a->Choice_0 < 4 {
            r is None && after.license is Some && license_parts(after.license->0)
                == offered_license(a->Choice_0 as int) && status_of(SectionKind::License, after)
                == SectionStatus::Configured
        } else {
            same_fields(before, after) && r == (if a == Answer::Choice(4) {
                Some(LicenseFlow::CustomName)
            } else {
                Some(flow)
            })
        },
        LicenseFlow::CustomName => same_fields(before, after) && r == (if a is Text {
            Some(LicenseFlow::CustomId { name: a->Text_0 })
        } else {
            Some(flow)
        }),
        LicenseFlow::CustomId { name } => same_fields(before, after) && r == (if a is Text {
            Some(LicenseFlow::CustomUrl { name, spdx_id: a->Text_0 })
        } else {
            Some(flow)
        }),
        LicenseFlow::CustomUrl { name, spdx_id } => if a is Text {
            r is None && after.license == Some(License { name, spdx_id, url: a->Text_0 })
                && status_of(SectionKind::License, after) == SectionStatus::Configured
        } else {
            same_fields(before, after) && r == Some(flow)
        },
        LicenseFlow::EditMenu => same_fields(before, after) && r == (if a == Answer::Choice(0) {
            if before.license is Some {
                Some(LicenseFlow::Menu)
            } else {
                Some(LicenseFlow::Choose)
            }
        } else if a == Answer::Choice(1) {
            Some(LicenseFlow::ConfirmRemove)
        } else if a == Answer::Choice(2) {
            None
        } else {
            Some(flow)
        }),
        LicenseFlow::ConfirmRemove => if a == Answer::Choice(0) {
            r is None && license_removed(after)
        } else {
            same_fields(before, after) && r == (if a == Answer::Choice(1) {
                None
            } else {
                Some(flow)
            })
        },
    }
}

/// Takes the user's answer in `flow`: applies it to the descriptor and
/// returns where the flow goes next, or `None` when it is over. An answer
/// of the wrong kind is asked again. Afterwards the section's status is
/// `Configured` exactly when a license is recorded.
pub fn license_step(
    flow: LicenseFlow,
    config: &mut WtfmConfig,
    answer: Answer,
    notes: &mut Vec<Notice>,
) -> (r: Option<LicenseFlow>)
    ensures
        license_step_post(flow, answer, *old(config), *final(config), r),
{
    license_apply(flow, config, answer, notes)
}

fn license_apply(
    flow: LicenseFlow,
    config: &mut WtfmConfig,
    answer: Answer,
    notes: &mut Vec<Notice>,
) -> (r: Option<LicenseFlow>)
    ensures
        license_step_post(flow, answer, *old(config), *final(config), r),
{
    let r = match flow {
        LicenseFlow::Menu => match choice_below(&answer, 4) {
            Some(0) => Some(LicenseFlow::Choose),
            Some(1) => {
                remove_license(config);
                notes.push(Notice::Success(owned("License removed successfully")));
                None
            },
            Some(_) => None,
            None => Some(LicenseFlow::Menu),
        },
        LicenseFlow::Choose => {
            let mut licenses = available_licenses();
            match choice_below(&answer, licenses.len()) {
                Some(i) => {
                    let chosen = licenses.remove(i);
                    proof {
                        reveal_strlit("MIT");
                        reveal_strlit("Apache 2.0");
                        reveal_strlit("GNU GPL v3");
                        reveal_strlit("BSD 3-Clause");
                        reveal_strlit("Custom");
                        assert(license_parts(chosen) == offered_license(i as int));
                        if i < 4 {
                            assert(chosen.name@ != "Custom"@) by {
                                assert(chosen.name@.len() != 6 || chosen.name@[0] != 'C');
                            }
                        }
                    }
                    if chosen.name == owned("Custom") {
                        Some(LicenseFlow::CustomName)
                    } else {
                        set_license(config, chosen);
                        notes.push(Notice::Success(owned(Messages::SUCCESS_SECTION)));
                        None
                    }
                },
                None => Some(LicenseFlow::Choose),
            }
        },
        LicenseFlow::CustomName => match answer {
            Answer::Text(name) => Some(LicenseFlow::CustomId { name }),
            _ => Some(LicenseFlow::CustomName),
        },
        LicenseFlow::CustomId { name } => match answer {
            Answer::Text(spdx_id) => Some(LicenseFlow::CustomUrl { name, spdx_id }),
            _ => Some(LicenseFlow::CustomId { name }),
        },
        LicenseFlow::CustomUrl { name, spdx_id } => match answer {
            Answer::Text(url) => {
                set_license(config, License { name, spdx_id, url });
                notes.push(Notice::Success(owned(Messages::SUCCESS_SECTION)));
                None
            },
            _ => Some(LicenseFlow::CustomUrl { name, spdx_id }),
        },
        LicenseFlow::EditMenu => match choice_below(&answer, 3) {
            Some(0) => {
                notes.push(Notice::Tips(owned(Messages::LICENSE_TIPS)));
                if config.license.is_some() {
                    Some(LicenseFlow::Menu)
                } else {
                    Some(LicenseFlow::Choose)
                }
            },
            Some(1) => Some(LicenseFlow::ConfirmRemove),
            Some(_) => None,
            None => Some(LicenseFlow::EditMenu),
        },
        LicenseFlow::ConfirmRemove => match choice_below(&answer, 2) {
            Some(0) => {
                remove_license(config);
                notes.push(Notice::Success(owned("License removed successfully")));
                None
            },
            Some(_) => None,
            None => Some(LicenseFlow::ConfirmRemove),
        },
    };
    settle(SectionKind::License, config);
    r
}

} // verus!
