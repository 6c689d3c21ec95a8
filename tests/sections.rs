use wtfm::config::wtfm::{Author, License, SectionStatus, WtfmConfig};
use wtfm::wizard::prompt::{Answer, Notice, Prompt};
use wtfm::wizard::sections::{
    CiCdSection, InstallSection, ProjectSection, Section, SectionFlow, SectionKind, advance, begin_edit,
    begin_run, flow_prompt,
};

fn text(s: &str) -> Answer {
    Answer::Text(s.to_string())
}

/// Feeds the answers to a flow until it ends; fails if it ends early or not at all.
fn drive(mut flow: SectionFlow, config: &mut WtfmConfig, answers: Vec<Answer>) -> Vec<Notice> {
    let mut notes: Vec<Notice> = Vec::new();
    let n = answers.len();
    for (i, a) in answers.into_iter().enumerate() {
        match advance(flow, config, a, &mut notes) {
            Some(next) => {
                assert!(i + 1 < n, "the flow did not end after the last answer");
                flow = next;
            }
            None => {
                assert_eq!(i + 1, n, "the flow ended before the last answer");
                return notes;
            }
        }
    }
    panic!("no answers given");
}

fn consistent(kind: SectionKind, c: &WtfmConfig) -> bool {
    (kind.status(c) == SectionStatus::Configured) == kind.is_set(c)
}

fn all_consistent(c: &WtfmConfig) -> bool {
    [
        SectionKind::Project,
        SectionKind::License,
        SectionKind::Authors,
        SectionKind::CiCd,
        SectionKind::Features,
        SectionKind::Installation,
    ]
    .iter()
    .all(|k| consistent(*k, c))
}

fn texts(items: &[&str]) -> Vec<String> {
    items.iter().map(|s| s.to_string()).collect()
}

#[test]
fn project_run_on_empty_descriptor() {
    let mut c = WtfmConfig::default();
    let mut notes = Vec::new();
    let flow = begin_run(SectionKind::Project, &c, &mut notes);
    drive(flow, &mut c, vec![text("Demo"), text(""), text("0.1.0")]);
    assert_eq!(SectionKind::Project.status(&c), SectionStatus::Configured);
    assert_eq!(c.project_name, "Demo");
    assert_eq!(c.description, "");
    assert_eq!(c.version, "0.1.0");
    assert!(all_consistent(&c));
}

#[test]
fn project_reasks_blank_name_and_bad_version() {
    let mut c = WtfmConfig::default();
    let mut notes = Vec::new();
    let flow = begin_run(SectionKind::Project, &c, &mut notes);
    let notes = drive(
        flow,
        &mut c,
        vec![text("  "), text("Demo"), text("d"), text("1.0"), text("")],
    );
    assert_eq!(c.project_name, "Demo");
    assert_eq!(c.version, "0.1.0");
    assert!(notes.iter().any(|n| matches!(n, Notice::Error(_))));
}

#[test]
fn authors_edit_adds_first_author() {
    let mut c = WtfmConfig::default();
    let mut notes = Vec::new();
    let flow = begin_edit(SectionKind::Authors, &c, &mut notes);
    drive(flow, &mut c, vec![text("A"), text("a@x.com")]);
    assert_eq!(SectionKind::Authors.status(&c), SectionStatus::Configured);
    assert_eq!(c.authors.len(), 1);
    assert_eq!(
        c.authors[0],
        Author { name: "A".to_string(), email: "a@x.com".to_string() }
    );
}

#[test]
fn authors_invalid_email_is_asked_again() {
    let mut c = WtfmConfig::default();
    let mut notes = Vec::new();
    let flow = begin_run(SectionKind::Authors, &c, &mut notes);
    drive(flow, &mut c, vec![text("A"), text("nope"), text("a@x.com")]);
    assert_eq!(c.authors.len(), 1);
    assert_eq!(c.authors[0].email, "a@x.com");
}

#[test]
fn removing_the_last_author_unflags_the_section() {
    let mut c = WtfmConfig::default();
    let mut notes = Vec::new();
    drive(begin_run(SectionKind::Authors, &c, &mut notes), &mut c, vec![text("A"), text("a@x.com")]);
    drive(
        begin_run(SectionKind::Authors, &c, &mut notes),
        &mut c,
        vec![Answer::Choice(2), Answer::Choice(0)],
    );
    assert!(c.authors.is_empty());
    assert_eq!(SectionKind::Authors.status(&c), SectionStatus::Skipped);
    assert!(all_consistent(&c));
}

#[test]
fn edit_on_empty_fields_starts_like_run() {
    for kind in [
        SectionKind::Project,
        SectionKind::License,
        SectionKind::Authors,
        SectionKind::CiCd,
        SectionKind::Features,
        SectionKind::Installation,
    ] {
        let c = WtfmConfig::default();
        let mut n1 = Vec::new();
        let mut n2 = Vec::new();
        let run = begin_run(kind, &c, &mut n1);
        let edit = begin_edit(kind, &c, &mut n2);
        assert_eq!(run, edit);
        assert_eq!(flow_prompt(&run, &c), flow_prompt(&edit, &c));
        assert_eq!(n1, n2);
    }
}

#[test]
fn installation_reorders_steps_only() {
    let mut c = WtfmConfig {
        prerequisites: texts(&["git"]),
        install_steps: texts(&["build", "run"]),
        ..Default::default()
    };
    let mut notes = Vec::new();
    let flow = begin_run(SectionKind::Installation, &c, &mut notes);
    drive(
        flow,
        &mut c,
        vec![Answer::Choice(1), Answer::Choice(3), Answer::Choice(1), Answer::Choice(0)],
    );
    assert_eq!(c.install_steps, texts(&["run", "build"]));
    assert_eq!(c.prerequisites, texts(&["git"]));
    assert_eq!(SectionKind::Installation.status(&c), SectionStatus::Configured);
}

#[test]
fn cancelled_reorder_keeps_the_old_order() {
    let mut c = WtfmConfig {
        features: texts(&["a", "b", "c"]),
        ..Default::default()
    };
    let mut notes = Vec::new();
    let flow = begin_run(SectionKind::Features, &c, &mut notes);
    drive(flow, &mut c, vec![Answer::Choice(3), Answer::Choice(2), Answer::Cancel]);
    assert_eq!(c.features, texts(&["a", "b", "c"]));
}

#[test]
fn features_add_then_remove_with_confirmation() {
    let mut c = WtfmConfig::default();
    let mut notes = Vec::new();
    drive(
        begin_run(SectionKind::Features, &c, &mut notes),
        &mut c,
        vec![text("one"), text("two"), text("three"), text("four"), text("")],
    );
    assert_eq!(SectionKind::Features.status(&c), SectionStatus::Configured);
    drive(
        begin_edit(SectionKind::Features, &c, &mut notes),
        &mut c,
        vec![
            Answer::Choice(1),
            Answer::Choices(vec![0, 2]),
            Answer::Choice(0),
            Answer::Choice(4),
        ],
    );
    assert_eq!(c.features, texts(&["two", "four"]));
    drive(
        begin_edit(SectionKind::Features, &c, &mut notes),
        &mut c,
        vec![Answer::Choice(1), Answer::Choices(vec![0, 1]), Answer::Choice(0), Answer::Choice(4)],
    );
    assert!(c.features.is_empty());
    assert_eq!(SectionKind::Features.status(&c), SectionStatus::Skipped);
}

#[test]
fn out_of_range_answer_is_asked_again() {
    let mut c = WtfmConfig {
        features: texts(&["a", "b"]),
        ..Default::default()
    };
    let mut notes = Vec::new();
    let flow = begin_run(SectionKind::Features, &c, &mut notes);
    let flow = advance(flow, &mut c, Answer::Choice(2), &mut notes).unwrap();
    let again = advance(flow, &mut c, Answer::Choices(vec![0, 5]), &mut notes).unwrap();
    assert!(matches!(flow_prompt(&again, &c), Prompt::MultiSelect { .. }));
    assert_eq!(c.features, texts(&["a", "b"]));
}

#[test]
fn license_from_catalog_and_removal() {
    let mut c = WtfmConfig::default();
    let mut notes = Vec::new();
    drive(begin_run(SectionKind::License, &c, &mut notes), &mut c, vec![Answer::Choice(1)]);
    assert_eq!(c.license.as_ref().unwrap().spdx_id, "Apache-2.0");
    assert_eq!(SectionKind::License.status(&c), SectionStatus::Configured);
    drive(
        begin_edit(SectionKind::License, &c, &mut notes),
        &mut c,
        vec![Answer::Choice(1), Answer::Choice(0)],
    );
    assert!(c.license.is_none());
    assert_eq!(SectionKind::License.status(&c), SectionStatus::Skipped);
}

#[test]
fn custom_license_asks_for_details() {
    let mut c = WtfmConfig::default();
    let mut notes = Vec::new();
    drive(
        begin_run(SectionKind::License, &c, &mut notes),
        &mut c,
        vec![Answer::Choice(4), text("Mine"), text("MINE-1.0"), text("https://example.com")],
    );
    assert_eq!(
        c.license,
        Some(License {
            name: "Mine".to_string(),
            spdx_id: "MINE-1.0".to_string(),
            url: "https://example.com".to_string(),
        })
    );
}

#[test]
fn ci_setup_then_disable() {
    let mut c = WtfmConfig::default();
    let mut notes = Vec::new();
    drive(
        begin_run(SectionKind::CiCd, &c, &mut notes),
        &mut c,
        vec![
            Answer::Choice(0),
            text("GitHub Actions"),
            Answer::Choices(vec![0, 1, 7]),
            text("main"),
            text("dev"),
            text(""),
        ],
    );
    assert!(c.setup_ci);
    assert_eq!(c.ci_platform.as_deref(), Some("GitHub Actions"));
    assert_eq!(c.ci_features, texts(&["Build", "Test", "Deploy"]));
    assert_eq!(c.ci_branches, texts(&["main", "dev"]));
    assert_eq!(SectionKind::CiCd.status(&c), SectionStatus::Configured);
    drive(begin_edit(SectionKind::CiCd, &c, &mut notes), &mut c, vec![Answer::Choice(1)]);
    assert!(!c.setup_ci);
    assert!(c.ci_platform.is_none() && c.ci_features.is_empty() && c.ci_branches.is_empty());
    assert_eq!(SectionKind::CiCd.status(&c), SectionStatus::Skipped);
    assert!(all_consistent(&c));
}

#[test]
fn ci_declined_is_skipped() {
    let mut c = WtfmConfig::default();
    let mut notes = Vec::new();
    drive(begin_run(SectionKind::CiCd, &c, &mut notes), &mut c, vec![Answer::Choice(1)]);
    assert!(!c.setup_ci);
    assert_eq!(SectionKind::CiCd.status(&c), SectionStatus::Skipped);
}

#[test]
fn ci_features_prompt_checks_current_ones() {
    let c = WtfmConfig {
        setup_ci: true,
        ci_features: texts(&["Lint"]),
        ..Default::default()
    };
    let mut notes = Vec::new();
    let flow = begin_edit(SectionKind::CiCd, &c, &mut notes);
    let mut c2 = c.clone();
    let flow = advance(flow, &mut c2, Answer::Choice(0), &mut notes).unwrap();
    let flow = advance(flow, &mut c2, Answer::Choice(1), &mut notes).unwrap();
    match flow_prompt(&flow, &c2) {
        Prompt::MultiSelect { checked, .. } => {
            assert_eq!(checked, vec![false, false, true, false, false, false, false, false])
        }
        other => panic!("unexpected prompt {:?}", other),
    }
}

#[test]
fn installation_fresh_fill_and_other_sections_untouched() {
    let mut c = WtfmConfig {
        features: texts(&["f"]),
        ..Default::default()
    };
    let mut notes = Vec::new();
    drive(
        begin_run(SectionKind::Installation, &c, &mut notes),
        &mut c,
        vec![text("rust"), text(""), text("cargo build"), text("")],
    );
    assert_eq!(c.prerequisites, texts(&["rust"]));
    assert_eq!(c.install_steps, texts(&["cargo build"]));
    assert_eq!(c.features, texts(&["f"]));
    assert_eq!(SectionKind::Installation.status(&c), SectionStatus::Configured);
    assert_eq!(SectionKind::Features.status(&c), SectionStatus::NotConfigured);
}

#[test]
fn section_types_report_their_names() {
    assert_eq!(ProjectSection::new().name(), "Project");
    assert!(!ProjectSection::new().can_skip());
    assert_eq!(CiCdSection::new().name(), "CI/CD");
    assert!(InstallSection::new().can_skip());
    assert_eq!(
        InstallSection::new().description(),
        "Add installation instructions and prerequisites"
    );
}

#[test]
fn prerequisites_replace_all_and_rewrite() {
    let mut c = WtfmConfig {
        prerequisites: texts(&["old1", "old2"]),
        ..Default::default()
    };
    let mut notes = Vec::new();
    drive(
        begin_run(SectionKind::Installation, &c, &mut notes),
        &mut c,
        vec![Answer::Choice(0), Answer::Choice(3), text("new"), text("")],
    );
    assert_eq!(c.prerequisites, texts(&["new"]));
    drive(
        begin_edit(SectionKind::Installation, &c, &mut notes),
        &mut c,
        vec![
            Answer::Choice(0),
            Answer::Choice(2),
            Answer::Choice(0),
            text("newer"),
            Answer::Choice(2),
        ],
    );
    assert_eq!(c.prerequisites, texts(&["newer"]));
    assert_eq!(SectionKind::Installation.status(&c), SectionStatus::Configured);
}

#[test]
fn features_reorder_in_revisit_places_every_item() {
    let mut c = WtfmConfig {
        features: texts(&["a", "b", "c"]),
        ..Default::default()
    };
    let mut notes = Vec::new();
    drive(
        begin_edit(SectionKind::Features, &c, &mut notes),
        &mut c,
        vec![
            Answer::Choice(3),
            Answer::Choice(1),
            Answer::Choice(1),
            Answer::Choice(0),
            Answer::Choice(4),
        ],
    );
    assert_eq!(c.features, texts(&["b", "c", "a"]));
    assert_eq!(SectionKind::Features.status(&c), SectionStatus::Configured);
}

#[test]
fn multi_choice_counts_as_a_set_of_positions() {
    let mut c = WtfmConfig {
        features: texts(&["a", "b", "c", "d"]),
        ..Default::default()
    };
    let mut notes = Vec::new();
    drive(
        begin_run(SectionKind::Features, &c, &mut notes),
        &mut c,
        vec![Answer::Choice(2), Answer::Choices(vec![2, 0, 2])],
    );
    assert_eq!(c.features, texts(&["b", "d"]));
    let mut c2 = WtfmConfig::default();
    drive(
        begin_run(SectionKind::CiCd, &c2, &mut notes),
        &mut c2,
        vec![Answer::Choice(0), text("CI"), Answer::Choices(vec![7, 0]), text("")],
    );
    assert_eq!(c2.ci_features, texts(&["Build", "Deploy"]));
}

#[test]
fn empty_first_installation_fill_is_skipped() {
    let mut c = WtfmConfig::default();
    let mut notes = Vec::new();
    drive(
        begin_run(SectionKind::Installation, &c, &mut notes),
        &mut c,
        vec![text(""), text("")],
    );
    assert_eq!(SectionKind::Installation.status(&c), SectionStatus::Skipped);
}

#[test]
fn invalid_email_on_edit_is_not_stored() {
    let mut c = WtfmConfig {
        authors: vec![Author { name: "A".to_string(), email: "a@x.com".to_string() }],
        ..Default::default()
    };
    let mut notes = Vec::new();
    let flow = begin_edit(SectionKind::Authors, &c, &mut notes);
    let flow = advance(flow, &mut c, Answer::Choice(0), &mut notes).unwrap();
    let flow = advance(flow, &mut c, Answer::Choice(0), &mut notes).unwrap();
    let flow = advance(flow, &mut c, text("B"), &mut notes).unwrap();
    let flow = advance(flow, &mut c, text("broken"), &mut notes).unwrap();
    assert_eq!(c.authors[0].email, "a@x.com");
    assert!(advance(flow, &mut c, text("b@y.org"), &mut notes).is_none());
    assert_eq!(c.authors[0], Author { name: "B".to_string(), email: "b@y.org".to_string() });
}
