use wtfm::config::wtfm::{SectionStatus, StatusLedger, WtfmConfig};

#[test]
fn test_template_generation() {
    let config = WtfmConfig {
        project_name: "Test Project".to_string(),
        description: "Test Description".to_string(),
        ..Default::default()
    };
    assert!(!config.project_name.is_empty());
    assert!(!config.description.is_empty());
}

#[test]
fn default_descriptor_is_empty() {
    let c = WtfmConfig::default();
    assert!(c.project_name.is_empty());
    assert!(c.authors.is_empty());
    assert!(c.license.is_none());
    assert!(!c.setup_ci);
    assert_eq!(c.sections_status.len(), 0);
}

#[test]
fn ledger_set_replaces_the_entry_of_a_name() {
    let mut l = StatusLedger::new();
    let p = "Project".to_string();
    let f = "Features".to_string();
    assert_eq!(l.get(&p), None);
    assert_eq!(l.status(&p), SectionStatus::NotConfigured);
    l.set(&p, SectionStatus::Skipped);
    l.set(&f, SectionStatus::Configured);
    l.set(&p, SectionStatus::Configured);
    assert_eq!(l.len(), 2);
    assert_eq!(l.get(&p), Some(SectionStatus::Configured));
    assert_eq!(l.status(&f), SectionStatus::Configured);
    assert_eq!(l.entries[0].section, "Project");
}
