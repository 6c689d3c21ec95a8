use vstd::prelude::*;
use vstd::string::StringExecFns;
use crate::config::wtfm::{SectionStatus, StatusLedger, WtfmConfig, status_in};
use crate::wizard::prompt::{Answer, Notice, Prompt};
use crate::wizard::sections::authors::{
    AuthorsFlow, authors_begin, authors_entry, authors_prompt, authors_prompt_is, authors_step,
    authors_step_post,
};
use crate::wizard::sections::cicd::{
    CiCdFlow, cicd_begin, cicd_entry, cicd_prompt, cicd_prompt_is, cicd_step, cicd_step_post,
};
use crate::wizard::sections::features::{
    FeaturesFlow, features_begin_edit, features_begin_run, features_edit_entry, features_prompt,
    features_prompt_is, features_run_entry, features_step, features_step_post,
};
use crate::wizard::sections::install::{
    InstallFlow, install_begin_edit, install_begin_run, install_edit_entry, install_prompt,
    install_prompt_is, install_run_entry, install_step, install_step_post,
};
use crate::wizard::sections::license::{
    LicenseFlow, license_begin_edit, license_begin_run, license_edit_entry, license_prompt,
    license_prompt_is, license_run_entry, license_step, license_step_post,
};
use crate::wizard::sections::project::{
    ProjectFlow, project_begin, project_entry, project_prompt, project_prompt_is, project_step,
    project_step_post,
};

pub mod authors;
pub mod cicd;
pub mod features;
pub mod install;
pub mod license;
pub mod list_task;
pub mod project;

verus! {

/// The sections of the descriptor, in the order the menu shows them.
#[derive(Clone, Copy, Debug, PartialEq, Eq, Structural)]
pub enum SectionKind {
    Project,
    License,
    Authors,
    CiCd,
    Features,
    Installation,
}

/// The key under which a section records its status.
pub open spec fn section_name(k: SectionKind) -> Seq<char> {
    match k {
        SectionKind::Project => "Project"@,
        SectionKind::License => "License"@,
        SectionKind::Authors => "Authors"@,
        SectionKind::CiCd => "CI/CD"@,
        SectionKind::Features => "Features"@,
        SectionKind::Installation => "Installation"@,
    }
}

/// A section's one-line purpose.
pub open spec fn section_description(k: SectionKind) -> Seq<char> {
    match k {
        SectionKind::Project => "Configure basic project information (name, description, version)"@,
        SectionKind::License => "Choose a license for your project"@,
        SectionKind::Authors => "Add project authors"@,
        SectionKind::CiCd => "Configure Continuous Integration and Deployment settings"@,
        SectionKind::Features => "Add features and capabilities of your project"@,
        SectionKind::Installation => "Add installation instructions and prerequisites"@,
    }
}

/// Distinct sections have distinct names.
pub proof fn lemma_section_names_distinct(a: SectionKind, b: SectionKind)
    ensures
        a != b ==> section_name(a) != section_name(b),
{
    reveal_strlit("Project");
    reveal_strlit("License");
    reveal_strlit("Authors");
    reveal_strlit("CI/CD");
    reveal_strlit("Features");
    reveal_strlit("Installation");
    if a != b {
        let x = section_name(a);
        let y = section_name(b);
        assert(x.len() != y.len() || x[0] != y[0] || x[1] != y[1]);
    }
}

/// Whether the fields a section governs hold something.
pub open spec fn governed_set(k: SectionKind, c: WtfmConfig) -> bool {
    match k {
        SectionKind::Project => c.project_name@.len() > 0,
        SectionKind::License => c.license is Some,
        SectionKind::Authors => c.authors@.len() > 0,
        SectionKind::CiCd => c.setup_ci,
        SectionKind::Features => c.features@.len() > 0,
        SectionKind::Installation => c.prerequisites@.len() > 0 || c.install_steps@.len() > 0,
    }
}

/// The status a section reads from the ledger.
pub open spec fn status_of(k: SectionKind, c: WtfmConfig) -> SectionStatus {
    status_in(c.sections_status@, section_name(k))
}

/// A section reads `Configured` exactly when its fields hold something.
pub open spec fn consistent(k: SectionKind, c: WtfmConfig) -> bool {
    (status_of(k, c) == SectionStatus::Configured) == governed_set(k, c)
}

/// `a` and `b` differ at most in the fields of section `k` and in its
/// ledger entry.
pub open spec fn only_touches(k: SectionKind, a: WtfmConfig, b: WtfmConfig) -> bool {
    &&& (k == SectionKind::Project || (a.project_name == b.project_name && a.description
        == b.description && a.version == b.version))
    &&& (k == SectionKind::License || a.license == b.license)
    &&& (k == SectionKind::Authors || a.authors@ == b.authors@)
    &&& (k == SectionKind::CiCd || (a.setup_ci == b.setup_ci && a.ci_platform == b.ci_platform
        && a.ci_features@ == b.ci_features@ && a.ci_branches@ == b.ci_branches@))
    &&& (k == SectionKind::Features || a.features@ == b.features@)
    &&& (k == SectionKind::Installation || (a.prerequisites@ == b.prerequisites@
        && a.install_steps@ == b.install_steps@))
    &&& a.git_info == b.git_info
    &&& a.cargo_info == b.cargo_info
    &&& a.sections_status@.remove(section_name(k)) == b.sections_status@.remove(section_name(k))
    &&& (a.sections_status.keys_unique() ==> b.sections_status.keys_unique())
}

/// `a` and `b` hold the same fields; their ledgers may differ.
pub open spec fn same_fields(a: WtfmConfig, b: WtfmConfig) -> bool {
    &&& a.project_name == b.project_name
    &&& a.description == b.description
    &&& a.version == b.version
    &&& a.license == b.license
    &&& a.authors@ == b.authors@
    &&& a.setup_ci == b.setup_ci
    &&& a.ci_platform == b.ci_platform
    &&& a.ci_features@ == b.ci_features@
    &&& a.ci_branches@ == b.ci_branches@
    &&& a.features@ == b.features@
    &&& a.prerequisites@ == b.prerequisites@
    &&& a.install_steps@ == b.install_steps@
    &&& a.git_info == b.git_info
    &&& a.cargo_info == b.cargo_info
}

/// Changing a section leaves every other section's fields and status as
/// they were.
pub proof fn lemma_other_sections_untouched(
    k: SectionKind,
    o: SectionKind,
    a: WtfmConfig,
    b: WtfmConfig,
)
    requires
        only_touches(k, a, b),
        o != k,
    ensures
        status_of(o, a) == status_of(o, b),
        governed_set(o, a) == governed_set(o, b),
        consistent(o, a) == consistent(o, b),
{
    lemma_section_names_distinct(k, o);
    let n = section_name(o);
    assert(a.sections_status@.remove(section_name(k)).contains_key(n) == a.sections_status@.contains_key(n));
    assert(b.sections_status@.remove(section_name(k)).contains_key(n) == b.sections_status@.contains_key(n));
    if a.sections_status@.contains_key(n) {
        assert(a.sections_status@.remove(section_name(k))[n] == a.sections_status@[n]);
        assert(b.sections_status@.remove(section_name(k))[n] == b.sections_status@[n]);
    }
}

impl SectionKind {
    /// The section's name, also its key in the ledger.
    pub fn name(&self) -> (r: &'static str)
        ensures
            r@ == section_name(*self),
    {
        match self {
            SectionKind::Project => "Project",
            SectionKind::License => "License",
            SectionKind::Authors => "Authors",
            SectionKind::CiCd => "CI/CD",
            SectionKind::Features => "Features",
            SectionKind::Installation => "Installation",
        }
    }

    /// A one-line purpose shown in the menu.
    pub fn description(&self) -> (r: &'static str)
        ensures
            r@ == section_description(*self),
    {
        match self {
            SectionKind::Project => "Configure basic project information (name, description, version)",
            SectionKind::License => "Choose a license for your project",
            SectionKind::Authors => "Add project authors",
            SectionKind::CiCd => "Configure Continuous Integration and Deployment settings",
            SectionKind::Features => "Add features and capabilities of your project",
            SectionKind::Installation => "Add installation instructions and prerequisites",
        }
    }

    /// Whether the menu lets the user finish while this section is not
    /// configured; only the project section is mandatory.
    pub fn can_skip(&self) -> (r: bool)
        ensures
            r == !(*self is Project),
    {
        match self {
            SectionKind::Project => false,
            _ => true,
        }
    }

    /// The section's entry in the ledger, `NotConfigured` where it has none.
    pub fn status(&self, config: &WtfmConfig) -> (r: SectionStatus)
        ensures
            r == status_of(*self, *config),
    {
        let key = String::from_str(self.name());
        config.sections_status.status(&key)
    }

    /// Whether the section's fields hold something.
    pub fn is_set(&self, config: &WtfmConfig) -> (r: bool)
        ensures
            r == governed_set(*self, *config),
    {
        match self {
            SectionKind::Project => !config.project_name.as_str().is_empty(),
            SectionKind::License => config.license.is_some(),
            SectionKind::Authors => config.authors.len() > 0,
            SectionKind::CiCd => config.setup_ci,
            SectionKind::Features => config.features.len() > 0,
            SectionKind::Installation => config.prerequisites.len() > 0
                || config.install_steps.len() > 0,
        }
    }
}

/// Records `status` for section `k` and changes nothing else.
pub fn mark(k: SectionKind, config: &mut WtfmConfig, status: SectionStatus)
    ensures
        final(config).sections_status@ == old(config).sections_status@.insert(
            section_name(k),
            status,
        ),
        status_of(k, *final(config)) == status,
        same_fields(*old(config), *final(config)),
        governed_set(k, *final(config)) == governed_set(k, *old(config)),
        only_touches(k, *old(config), *final(config)),
{
    let key = String::from_str(k.name());
    config.sections_status.set(&key, status);
    assert(final(config).sections_status@.remove(section_name(k)) =~= old(config).sections_status@.remove(section_name(k)));
}

/// Brings the section's status in line with its fields: `Configured` when
/// they hold something; otherwise a `Configured` entry becomes `Skipped` and
/// any other stays.
pub fn settle(k: SectionKind, config: &mut WtfmConfig)
    ensures
        consistent(k, *final(config)),
        status_of(k, *final(config)) == (if governed_set(k, *old(config)) {
            SectionStatus::Configured
        } else if status_of(k, *old(config)) == SectionStatus::Configured {
            SectionStatus::Skipped
        } else {
            status_of(k, *old(config))
        }),
        same_fields(*old(config), *final(config)),
        governed_set(k, *final(config)) == governed_set(k, *old(config)),
        only_touches(k, *old(config), *final(config)),
{
    if k.is_set(config) {
        mark(k, config, SectionStatus::Configured);
    } else if k.status(config) == SectionStatus::Configured {
        mark(k, config, SectionStatus::Skipped);
    } else {
        assert(final(config).sections_status@.remove(section_name(k)) =~= old(config).sections_status@.remove(section_name(k)));
    }
}

/// A section's interactive routine in progress.
#[derive(Debug, PartialEq)]
pub enum SectionFlow {
    Project(ProjectFlow),
    License(LicenseFlow),
    Authors(AuthorsFlow),
    CiCd(CiCdFlow),
    Features(FeaturesFlow),
    Installation(InstallFlow),
}

/// The section a flow belongs to.
pub open spec fn flow_kind(f: SectionFlow) -> SectionKind {
    match f {
        SectionFlow::Project(_) => SectionKind::Project,
        SectionFlow::License(_) => SectionKind::License,
        SectionFlow::Authors(_) => SectionKind::Authors,
        SectionFlow::CiCd(_) => SectionKind::CiCd,
        SectionFlow::Features(_) => SectionKind::Features,
        SectionFlow::Installation(_) => SectionKind::Installation,
    }
}

impl SectionFlow {
    /// The section the flow belongs to.
    pub fn kind(&self) -> (r: SectionKind)
        ensures
            r == flow_kind(*self),
    {
        match self {
            SectionFlow::Project(_) => SectionKind::Project,
            SectionFlow::License(_) => SectionKind::License,
            SectionFlow::Authors(_) => SectionKind::Authors,
            SectionFlow::CiCd(_) => SectionKind::CiCd,
            SectionFlow::Features(_) => SectionKind::Features,
            SectionFlow::Installation(_) => SectionKind::Installation,
        }
    }
}

/// Where a section's first-time fill starts on descriptor `c`.
pub open spec fn run_entry(k: SectionKind, c: WtfmConfig) -> SectionFlow {
    match k {
        SectionKind::Project => SectionFlow::Project(project_entry(c)),
        SectionKind::License => SectionFlow::License(license_run_entry(c)),
        SectionKind::Authors => SectionFlow::Authors(authors_entry(c)),
        SectionKind::CiCd => SectionFlow::CiCd(cicd_entry(c)),
        SectionKind::Features => SectionFlow::Features(features_run_entry(c)),
        SectionKind::Installation => SectionFlow::Installation(install_run_entry(c)),
    }
}

/// Where a section's revisit starts on descriptor `c`.
pub open spec fn edit_entry(k: SectionKind, c: WtfmConfig) -> SectionFlow {
    match k {
        SectionKind::Project => SectionFlow::Project(project_entry(c)),
        SectionKind::License => SectionFlow::License(license_edit_entry(c)),
        SectionKind::Authors => SectionFlow::Authors(authors_entry(c)),
        SectionKind::CiCd => SectionFlow::CiCd(cicd_entry(c)),
        SectionKind::Features => SectionFlow::Features(features_edit_entry(c)),
        SectionKind::Installation => SectionFlow::Installation(install_edit_entry(c)),
    }
}

/// For every section, revisiting it while its fields are empty behaves as a
/// first-time fill: both start in the same place, so they ask the same
/// questions and take the answers the same way.
pub proof fn lemma_edit_is_run_when_empty(k: SectionKind, c: WtfmConfig)
    requires
        !governed_set(k, c),
    ensures
        edit_entry(k, c) == run_entry(k, c),
{
}

/// Starts section `k`'s first-time fill.
pub fn begin_run(k: SectionKind, config: &WtfmConfig, notes: &mut Vec<Notice>) -> (r: SectionFlow)
    ensures
        r == run_entry(k, *config),
        flow_kind(r) == k,
{
    match k {
        SectionKind::Project => SectionFlow::Project(project_begin(config, notes)),
        SectionKind::License => SectionFlow::License(license_begin_run(config, notes)),
        SectionKind::Authors => SectionFlow::Authors(authors_begin(config, notes)),
        SectionKind::CiCd => SectionFlow::CiCd(cicd_begin(config, notes)),
        SectionKind::Features => SectionFlow::Features(features_begin_run(config, notes)),
        SectionKind::Installation => SectionFlow::Installation(install_begin_run(config, notes)),
    }
}

/// Starts section `k`'s revisit.
pub fn begin_edit(k: SectionKind, config: &WtfmConfig, notes: &mut Vec<Notice>) -> (r: SectionFlow)
    ensures
        r == edit_entry(k, *config),
        flow_kind(r) == k,
{
    match k {
        SectionKind::Project => SectionFlow::Project(project_begin(config, notes)),
        SectionKind::License => SectionFlow::License(license_begin_edit(config, notes)),
        SectionKind::Authors => SectionFlow::Authors(authors_begin(config, notes)),
        SectionKind::CiCd => SectionFlow::CiCd(cicd_begin(config, notes)),
        SectionKind::Features => SectionFlow::Features(features_begin_edit(config, notes)),
        SectionKind::Installation => SectionFlow::Installation(install_begin_edit(config, notes)),
    }
}

/// The question a flow asks on descriptor `c`.
pub open spec fn flow_prompt_is(flow: SectionFlow, c: WtfmConfig, p: Prompt) -> bool {
    match flow {
        SectionFlow::Project(f) => project_prompt_is(f, c, p),
        SectionFlow::License(f) => license_prompt_is(f, p),
        SectionFlow::Authors(f) => authors_prompt_is(f, c, p),
        SectionFlow::CiCd(f) => cicd_prompt_is(f, c, p),
        SectionFlow::Features(f) => features_prompt_is(f, c, p),
        SectionFlow::Installation(f) => install_prompt_is(f, c, p),
    }
}

/// The question the flow asks next.
pub fn flow_prompt(flow: &SectionFlow, config: &WtfmConfig) -> (r: Prompt)
    ensures
        flow_prompt_is(*flow, *config, r),
{
    match flow {
        SectionFlow::Project(f) => project_prompt(f, config),
        SectionFlow::License(f) => license_prompt(f),
        SectionFlow::Authors(f) => authors_prompt(f, config),
        SectionFlow::CiCd(f) => cicd_prompt(f, config),
        SectionFlow::Features(f) => features_prompt(f, config),
        SectionFlow::Installation(f) => install_prompt(f, config),
    }
}

/// The project state of a flow that goes on, if it is a project flow.
pub open spec fn as_project(r: Option<SectionFlow>) -> Option<ProjectFlow> {
    match r {
        Some(SectionFlow::Project(f)) => Some(f),
        _ => None,
    }
}

/// The license state of a flow that goes on, if it is a license flow.
pub open spec fn as_license(r: Option<SectionFlow>) -> Option<LicenseFlow> {
    match r {
        Some(SectionFlow::License(f)) => Some(f),
        _ => None,
    }
}

/// The authors state of a flow that goes on, if it is an authors flow.
pub open spec fn as_authors(r: Option<SectionFlow>) -> Option<AuthorsFlow> {
    match r {
        Some(SectionFlow::Authors(f)) => Some(f),
        _ => None,
    }
}

/// The CI/CD state of a flow that goes on, if it is a CI/CD flow.
pub open spec fn as_cicd(r: Option<SectionFlow>) -> Option<CiCdFlow> {
    match r {
        Some(SectionFlow::CiCd(f)) => Some(f),
        _ => None,
    }
}

/// The features state of a flow that goes on, if it is a features flow.
pub open spec fn as_features(r: Option<SectionFlow>) -> Option<FeaturesFlow> {
    match r {
        Some(SectionFlow::Features(f)) => Some(f),
        _ => None,
    }
}

/// The installation state of a flow that goes on, if it is one.
pub open spec fn as_install(r: Option<SectionFlow>) -> Option<InstallFlow> {
    match r {
        Some(SectionFlow::Installation(f)) => Some(f),
        _ => None,
    }
}

/// What one answer does to a section's flow and the descriptor: exactly
/// what that section's step states.
pub open spec fn advance_post(
    flow: SectionFlow,
    a: Answer,
    before: WtfmConfig,
    after: WtfmConfig,
    r: Option<SectionFlow>,
) -> bool {
    &&& (r is Some ==> flow_kind(r->0) == flow_kind(flow))
    &&& match flow {
        SectionFlow::Project(f) => project_step_post(f, a, before, after, as_project(r)),
        SectionFlow::License(f) => license_step_post(f, a, before, after, as_license(r)),
        SectionFlow::Authors(f) => authors_step_post(f, a, before, after, as_authors(r)),
        SectionFlow::CiCd(f) => cicd_step_post(f, a, before, after, as_cicd(r)),
        SectionFlow::Features(f) => features_step_post(f, a, before, after, as_features(r)),
        SectionFlow::Installation(f) => install_step_post(f, a, before, after, as_install(r)),
    }
}

/// Takes the user's answer to the flow's question and applies it. Returns
/// the flow as it goes on, or `None` when the section's routine is over,
/// exactly as the section's own step says. Only the section's own fields and
/// status change; afterwards its status is `Configured` exactly when its
/// fields hold something, and every other section whose status agreed with
/// its fields still does.
pub fn advance(
    flow: SectionFlow,
    config: &mut WtfmConfig,
    answer: Answer,
    notes: &mut Vec<Notice>,
) -> (r: Option<SectionFlow>)
    ensures
        advance_post(flow, answer, *old(config), *final(config), r),
        only_touches(flow_kind(flow), *old(config), *final(config)),
        consistent(flow_kind(flow), *final(config)),
        forall|o: SectionKind| #[trigger]
            consistent(o, *old(config)) ==> consistent(o, *final(config)),
{
    let ghost k = flow_kind(flow);
    let ghost before = *config;
    let r = match flow {
        SectionFlow::Project(f) => match project_step(f, config, answer, notes) {
            Some(g) => Some(SectionFlow::Project(g)),
            None => None,
        },
        SectionFlow::License(f) => match license_step(f, config, answer, notes) {
            Some(g) => Some(SectionFlow::License(g)),
            None => None,
        },
        SectionFlow::Authors(f) => match authors_step(f, config, answer, notes) {
            Some(g) => Some(SectionFlow::Authors(g)),
            None => None,
        },
        SectionFlow::CiCd(f) => match cicd_step(f, config, answer, notes) {
            Some(g) => Some(SectionFlow::CiCd(g)),
            None => None,
        },
        SectionFlow::Features(f) => match features_step(f, config, answer, notes) {
            Some(g) => Some(SectionFlow::Features(g)),
            None => None,
        },
        SectionFlow::Installation(f) => match install_step(f, config, answer, notes) {
            Some(g) => Some(SectionFlow::Installation(g)),
            None => None,
        },
    };
    proof {
        assert(only_touches(k, before, *config));
        assert forall|o: SectionKind| #[trigger] consistent(o, before) implies consistent(
            o,
            *config,
        ) by {
            if o != k {
                lemma_other_sections_untouched(k, o, before, *config);
            }
        }
    }
    r
}

/// What every section offers the menu: its name and purpose, whether it may
/// be left unconfigured, its status, and its two routines.
pub trait Section {
    /// Which section this is.
    spec fn kind(&self) -> SectionKind;

    /// The section's name, also its key in the ledger.
    fn name(&self) -> (r: &'static str)
        ensures
            r@ == section_name(self.kind()),
    ;

    /// A one-line purpose shown in the menu.
    fn description(&self) -> (r: &'static str)
        ensures
            r@ == section_description(self.kind()),
    ;

    /// Whether the menu lets the user finish while this section is not
    /// configured.
    fn can_skip(&self) -> (r: bool)
        ensures
            r == !(self.kind() is Project),
    ;

    /// The section's status in the ledger.
    fn status(&self, config: &WtfmConfig) -> (r: SectionStatus)
        ensures
            r == status_of(self.kind(), *config),
    ;

    /// Starts the first-time fill.
    fn run(&self, config: &WtfmConfig, notes: &mut Vec<Notice>) -> (r: SectionFlow)
        ensures
            r == run_entry(self.kind(), *config),
    ;

    /// Starts the revisit.
    fn edit(&self, config: &WtfmConfig, notes: &mut Vec<Notice>) -> (r: SectionFlow)
        ensures
            r == edit_entry(self.kind(), *config),
    ;
}

impl Section for SectionKind {
    open spec fn kind(&self) -> SectionKind {
        *self
    }

    fn name(&self) -> (r: &'static str) {
        SectionKind::name(self)
    }

    fn description(&self) -> (r: &'static str) {
        SectionKind::description(self)
    }

    fn can_skip(&self) -> (r: bool) {
        SectionKind::can_skip(self)
    }

    fn status(&self, config: &WtfmConfig) -> (r: SectionStatus) {
        SectionKind::status(self, config)
    }

    fn run(&self, config: &WtfmConfig, notes: &mut Vec<Notice>) -> (r: SectionFlow) {
        begin_run(*self, config, notes)
    }

    fn edit(&self, config: &WtfmConfig, notes: &mut Vec<Notice>) -> (r: SectionFlow) {
        begin_edit(*self, config, notes)
    }
}

/// The project section.
pub struct ProjectSection;

impl ProjectSection {
    pub fn new() -> Self {
        ProjectSection
    }
}

impl Section for ProjectSection {
    open spec fn kind(&self) -> SectionKind {
        SectionKind::Project
    }

    fn name(&self) -> (r: &'static str) {
        SectionKind::Project.name()
    }

    fn description(&self) -> (r: &'static str) {
        SectionKind::Project.description()
    }

    fn can_skip(&self) -> (r: bool) {
        SectionKind::Project.can_skip()
    }

    fn status(&self, config: &WtfmConfig) -> (r: SectionStatus) {
        SectionKind::Project.status(config)
    }

    fn run(&self, config: &WtfmConfig, notes: &mut Vec<Notice>) -> (r: SectionFlow) {
        begin_run(SectionKind::Project, config, notes)
    }

    fn edit(&self, config: &WtfmConfig, notes: &mut Vec<Notice>) -> (r: SectionFlow) {
        begin_edit(SectionKind::Project, config, notes)
    }
}

/// The license section.
pub struct LicenseSection;

impl LicenseSection {
    pub fn new() -> Self {
        LicenseSection
    }
}

impl Section for LicenseSection {
    open spec fn kind(&self) -> SectionKind {
        SectionKind::License
    }

    fn name(&self) -> (r: &'static str) {
        SectionKind::License.name()
    }

    fn description(&self) -> (r: &'static str) {
        SectionKind::License.description()
    }

    fn can_skip(&self) -> (r: bool) {
        SectionKind::License.can_skip()
    }

    fn status(&self, config: &WtfmConfig) -> (r: SectionStatus) {
        SectionKind::License.status(config)
    }

    fn run(&self, config: &WtfmConfig, notes: &mut Vec<Notice>) -> (r: SectionFlow) {
        begin_run(SectionKind::License, config, notes)
    }

    fn edit(&self, config: &WtfmConfig, notes: &mut Vec<Notice>) -> (r: SectionFlow) {
        begin_edit(SectionKind::License, config, notes)
    }
}

/// The authors section.
pub struct AuthorsSection;

impl AuthorsSection {
    pub fn new() -> Self {
        AuthorsSection
    }
}

impl Section for AuthorsSection {
    open spec fn kind(&self) -> SectionKind {
        SectionKind::Authors
    }

    fn name(&self) -> (r: &'static str) {
        SectionKind::Authors.name()
    }

    fn description(&self) -> (r: &'static str) {
        SectionKind::Authors.description()
    }

    fn can_skip(&self) -> (r: bool) {
        SectionKind::Authors.can_skip()
    }

    fn status(&self, config: &WtfmConfig) -> (r: SectionStatus) {
        SectionKind::Authors.status(config)
    }

    fn run(&self, config: &WtfmConfig, notes: &mut Vec<Notice>) -> (r: SectionFlow) {
        begin_run(SectionKind::Authors, config, notes)
    }

    fn edit(&self, config: &WtfmConfig, notes: &mut Vec<Notice>) -> (r: SectionFlow) {
        begin_edit(SectionKind::Authors, config, notes)
    }
}

/// The CI/CD section.
pub struct CiCdSection;

impl CiCdSection {
    pub fn new() -> Self {
        CiCdSection
    }
}

impl Section for CiCdSection {
    open spec fn kind(&self) -> SectionKind {
        SectionKind::CiCd
    }

    fn name(&self) -> (r: &'static str) {
        SectionKind::CiCd.name()
    }

    fn description(&self) -> (r: &'static str) {
        SectionKind::CiCd.description()
    }

    fn can_skip(&self) -> (r: bool) {
        SectionKind::CiCd.can_skip()
    }

    fn status(&self, config: &WtfmConfig) -> (r: SectionStatus) {
        SectionKind::CiCd.status(config)
    }

    fn run(&self, config: &WtfmConfig, notes: &mut Vec<Notice>) -> (r: SectionFlow) {
        begin_run(SectionKind::CiCd, config, notes)
    }

    fn edit(&self, config: &WtfmConfig, notes: &mut Vec<Notice>) -> (r: SectionFlow) {
        begin_edit(SectionKind::CiCd, config, notes)
    }
}

/// The features section.
pub struct FeaturesSection;

impl FeaturesSection {
    pub fn new() -> Self {
        FeaturesSection
    }
}

impl Section for FeaturesSection {
    open spec fn kind(&self) -> SectionKind {
        SectionKind::Features
    }

    fn name(&self) -> (r: &'static str) {
        SectionKind::Features.name()
    }

    fn description(&self) -> (r: &'static str) {
        SectionKind::Features.description()
    }

    fn can_skip(&self) -> (r: bool) {
        SectionKind::Features.can_skip()
    }

    fn status(&self, config: &WtfmConfig) -> (r: SectionStatus) {
        SectionKind::Features.status(config)
    }

    fn run(&self, config: &WtfmConfig, notes: &mut Vec<Notice>) -> (r: SectionFlow) {
        begin_run(SectionKind::Features, config, notes)
    }

    fn edit(&self, config: &WtfmConfig, notes: &mut Vec<Notice>) -> (r: SectionFlow) {
        begin_edit(SectionKind::Features, config, notes)
    }
}

/// The installation section.
pub struct InstallSection;

impl InstallSection {
    pub fn new() -> Self {
        InstallSection
    }
}

impl Section for InstallSection {
    open spec fn kind(&self) -> SectionKind {
        SectionKind::Installation
    }

    fn name(&self) -> (r: &'static str) {
        SectionKind::Installation.name()
    }

    fn description(&self) -> (r: &'static str) {
        SectionKind::Installation.description()
    }

    fn can_skip(&self) -> (r: bool) {
        SectionKind::Installation.can_skip()
    }

    fn status(&self, config: &WtfmConfig) -> (r: SectionStatus) {
        SectionKind::Installation.status(config)
    }

    fn run(&self, config: &WtfmConfig, notes: &mut Vec<Notice>) -> (r: SectionFlow) {
        begin_run(SectionKind::Installation, config, notes)
    }

    fn edit(&self, config: &WtfmConfig, notes: &mut Vec<Notice>) -> (r: SectionFlow) {
        begin_edit(SectionKind::Installation, config, notes)
    }
}

} // verus!
