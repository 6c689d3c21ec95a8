use wtfm::config::wizard::{WizardAnswers, join};
use wtfm::utils::cargo::{Cargo, parse_cargo_info, split_commas};
use wtfm::utils::git::{Git, parse_git_info};

#[test]
fn manifest_fields_are_read() {
    let text = "[package]\nname = \"demo\"\nversion = \"1.2.3\"\nauthors = \"Ann,Bob\"\nkeywords = [\"x\"]\n";
    let info = parse_cargo_info(text);
    assert_eq!(info.package_name.as_deref(), Some("demo"));
    assert_eq!(info.version.as_deref(), Some("1.2.3"));
    assert_eq!(info.authors, vec!["Ann".to_string(), "Bob".to_string()]);
    assert!(info.keywords.is_empty());
    assert!(info.description.is_none());
}

#[test]
fn unparsable_manifest_gives_nothing() {
    let info = parse_cargo_info("this is [not toml");
    assert!(info.package_name.is_none());
    assert!(info.authors.is_empty());
}

#[test]
fn commas_split_into_pieces() {
    assert_eq!(split_commas("a,b,,c"), vec!["a", "b", "", "c"]);
    assert_eq!(split_commas(""), vec![""]);
    assert_eq!(split_commas("solo"), vec!["solo"]);
}

#[test]
fn cargo_and_git_folders() {
    let c = Cargo::new("/p", Some("[package]\nname = \"n\"\n".to_string()));
    assert_eq!(c.path(), "/p");
    assert_eq!(c.info().unwrap().package_name.as_deref(), Some("n"));
    assert!(Cargo::new("/q", None).info().is_none());
    let g = Git::new("/p", true);
    assert!(g.is_repo());
    assert!(g.info().unwrap().is_git_repo);
    assert_eq!(g.path(), "/p");
    assert!(!Git::new("/q", false).is_repo());
    assert!(parse_git_info("/p/.git").tags.is_empty());
}

#[test]
fn questionnaire_answers() {
    let t = WizardAnswers::new_test();
    assert_eq!(t.license.spdx_id, "MIT");
    assert_eq!(
        t.summary(),
        "Project: Test Project\nDescription: A test project\nVersion: 0.1.0\nLicense: MIT License (MIT)\nSetup CI: true\nAuthors: Author 1, Author 2"
    );
    let a = WizardAnswers::from_choices(
        "P".to_string(),
        "D".to_string(),
        String::new(),
        2,
        1,
        vec!["X".to_string()],
    )
    .unwrap();
    assert_eq!(a.version, "0.1.0");
    assert_eq!(a.license.spdx_id, "GPL-3.0-only");
    assert!(!a.setup_ci);
    assert_eq!(a.author_quantity, 1);
    assert!(WizardAnswers::from_choices(String::new(), String::new(), String::new(), 3, 0, vec![]).is_none());
    assert_eq!(join(&vec!["a".to_string(), "b".to_string()], "-"), "a-b");
}
