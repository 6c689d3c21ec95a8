use wtfm::config::wtfm::{SectionStatus, WtfmConfig};
use wtfm::wizard::menu::{Menu, MenuState, position_of};
use wtfm::wizard::prompt::{Answer, Notice, Prompt};
use wtfm::wizard::sections::SectionKind;
use wtfm::wizard::{Wizard, WizardMode};

fn standard_menu() -> Menu {
    let mut m = Menu::new();
    for k in [
        SectionKind::Project,
        SectionKind::License,
        SectionKind::Authors,
        SectionKind::CiCd,
        SectionKind::Features,
        SectionKind::Installation,
    ] {
        m.add_section(k);
    }
    m
}

#[test]
fn done_with_project_unconfigured_and_declined_returns_to_selecting() {
    let mut m = standard_menu();
    let mut c = WtfmConfig::default();
    let mut notes = Vec::new();
    m.answer(&mut c, Answer::Choice(6), &mut notes);
    assert_eq!(*m.state(), MenuState::BlockedExit);
    assert!(matches!(&notes[0], Notice::Error(t) if t == "Project must be configured before proceeding."));
    match m.prompt(&c).unwrap() {
        Prompt::Select { label, items, .. } => {
            assert_eq!(label, "Required sections are not configured. Do you want to exit anyway?");
            assert_eq!(items, vec!["No, continue configuring".to_string(), "Yes, exit".to_string()]);
        }
        other => panic!("unexpected prompt {:?}", other),
    }
    m.answer(&mut c, Answer::Choice(0), &mut notes);
    assert_eq!(*m.state(), MenuState::Selecting);
    assert!(!m.is_finished());
}

#[test]
fn done_with_project_unconfigured_can_be_overridden() {
    let mut m = standard_menu();
    let mut c = WtfmConfig::default();
    let mut notes = Vec::new();
    m.answer(&mut c, Answer::Choice(6), &mut notes);
    m.answer(&mut c, Answer::Choice(1), &mut notes);
    assert!(m.is_finished());
    assert!(m.prompt(&c).is_none());
}

#[test]
fn configured_project_leads_to_confirmation() {
    let mut m = standard_menu();
    let mut c = WtfmConfig::default();
    let mut notes = Vec::new();
    m.answer(&mut c, Answer::Choice(0), &mut notes);
    for a in ["Demo", "", "1.2.3"] {
        m.answer(&mut c, Answer::Text(a.to_string()), &mut notes);
    }
    assert_eq!(*m.state(), MenuState::Selecting);
    assert_eq!(c.project_name, "Demo");
    m.answer(&mut c, Answer::Choice(6), &mut notes);
    assert_eq!(*m.state(), MenuState::ConfirmExit);
    m.answer(&mut c, Answer::Choice(1), &mut notes);
    assert!(m.is_finished());
}

#[test]
fn menu_lines_show_status_markers() {
    let m = standard_menu();
    let mut c = WtfmConfig::default();
    c.sections_status.set(&"License".to_string(), SectionStatus::Skipped);
    c.sections_status.set(&"Project".to_string(), SectionStatus::Configured);
    match m.prompt(&c).unwrap() {
        Prompt::Select { items, .. } => {
            assert_eq!(items.len(), 7);
            assert!(items[0].starts_with("[\u{2713}] Project - "));
            assert!(items[1].starts_with("[\u{21b7}] License"));
            assert!(items[2].starts_with("[ ] Authors"));
            assert_eq!(items[6], "Done");
        }
        other => panic!("unexpected prompt {:?}", other),
    }
    let st = m.get_sections_status(&c);
    assert_eq!(st.len(), 6);
    assert_eq!(st[0].status, SectionStatus::Configured);
    assert_eq!(st[3].section, "CI/CD");
    assert_eq!(st[3].status, SectionStatus::NotConfigured);
}

#[test]
fn find_section_ignores_case() {
    let m = standard_menu();
    assert_eq!(m.find_section("project"), Some(SectionKind::Project));
    assert_eq!(m.find_section("ci/cd"), Some(SectionKind::CiCd));
    assert_eq!(m.find_section("INSTALLATION"), Some(SectionKind::Installation));
    assert_eq!(m.find_section("docs"), None);
}

#[test]
fn position_of_gives_the_first_match() {
    let names = vec!["a".to_string(), "b".to_string(), "b".to_string()];
    assert_eq!(position_of(&names, &"b".to_string()), Some(1));
    assert_eq!(position_of(&names, &"c".to_string()), None);
}

#[test]
fn wizard_edits_one_named_section() {
    let mut w = Wizard::new();
    let mut notes = Vec::new();
    w.edit_section(Some("AUTHORS".to_string()), &mut notes);
    assert!(matches!(w.mode(), WizardMode::Section(_)));
    w.answer(Answer::Text("A".to_string()), &mut notes);
    w.answer(Answer::Text("a@x.com".to_string()), &mut notes);
    assert!(w.prompt().is_none());
    assert_eq!(w.get_config().authors.len(), 1);
    w.edit_section(Some("unknown".to_string()), &mut notes);
    assert_eq!(*w.mode(), WizardMode::Idle);
    w.edit_section(None, &mut notes);
    assert_eq!(*w.mode(), WizardMode::Menu);
    assert!(w.prompt().is_some());
}

#[test]
fn wizard_keeps_a_loaded_descriptor() {
    let c = WtfmConfig {
        project_name: "Loaded".to_string(),
        ..Default::default()
    };
    let w = Wizard::new_with_config(c);
    assert_eq!(w.get_config().project_name, "Loaded");
    assert_eq!(w.menu().sections().len(), 6);
    assert_eq!(w.menu().sections()[0], SectionKind::Project);
}
