use vstd::prelude::*;
use crate::config::wtfm::WtfmConfig;
use crate::wizard::menu::{
    Menu, MenuState, gate_step, lookup_section, menu_prompt_is, section_in_control,
};
use crate::wizard::prompt::{Answer, Notice, Prompt, owned};
use crate::wizard::sections::{
    SectionFlow, SectionKind, advance, advance_post, begin_edit, consistent, edit_entry, flow_prompt,
    flow_prompt_is,
};

pub mod lists;
pub mod menu;
pub mod prompt;
pub mod sections;

verus! {

/// The sections the wizard offers, in display order: the project first,
/// since it is mandatory and names the project.
pub open spec fn standard_sections() -> Seq<SectionKind> {
    seq![
        SectionKind::Project,
        SectionKind::License,
        SectionKind::Authors,
        SectionKind::CiCd,
        SectionKind::Features,
        SectionKind::Installation,
    ]
}

/// What the wizard is doing.
#[derive(Debug, PartialEq)]
pub enum WizardMode {
    /// Nothing is running.
    Idle,
    /// The full menu loop is running.
    Menu,
    /// A single section is being revisited.
    Section(SectionFlow),
}

/// Owns the descriptor and the menu over the standard sections, and runs
/// either the full menu or the revisit of one section.
pub struct Wizard {
    menu: Menu,
    pub config: WtfmConfig,
    mode: WizardMode,
}

impl Wizard {
    /// The menu's sections.
    pub closed spec fn section_list(&self) -> Seq<SectionKind> {
        self.menu.section_list()
    }

    /// What the wizard is doing.
    pub closed spec fn current_mode(&self) -> WizardMode {
        self.mode
    }

    /// The descriptor.
    pub closed spec fn descriptor(&self) -> WtfmConfig {
        self.config
    }

    /// Where the menu stands.
    pub closed spec fn menu_state(&self) -> MenuState {
        self.menu.current()
    }

    /// A wizard over a fresh descriptor.
    pub fn new() -> (r: Self)
        ensures
            r.descriptor().is_fresh(),
            r.section_list() == standard_sections(),
            (r.current_mode() is Idle),
    {
        Wizard::new_with_config(WtfmConfig::default())
    }

    /// A wizard over a descriptor loaded from earlier work.
    pub fn new_with_config(config: WtfmConfig) -> (r: Self)
        ensures
            r.descriptor() == config,
            r.section_list() == standard_sections(),
            (r.current_mode() is Idle),
    {
        let mut menu = Menu::new();
        menu.add_section(SectionKind::Project);
        menu.add_section(SectionKind::License);
        menu.add_section(SectionKind::Authors);
        menu.add_section(SectionKind::CiCd);
        menu.add_section(SectionKind::Features);
        menu.add_section(SectionKind::Installation);
        assert(menu.section_list() =~= standard_sections());
        Wizard { menu, config, mode: WizardMode::Idle }
    }

    /// The descriptor, for reading.
    pub fn get_config(&self) -> (r: &WtfmConfig)
        ensures
            *r == self.descriptor(),
    {
        &self.config
    }

    /// The menu.
    pub fn menu(&self) -> (r: &Menu)
        ensures
            r.section_list() == self.section_list(),
    {
        &self.menu
    }

    /// What the wizard is doing.
    pub fn mode(&self) -> (r: &WizardMode)
        ensures
            *r == self.current_mode(),
    {
        &self.mode
    }

    /// Starts the full menu loop, after a welcome.
    pub fn run(&mut self, notes: &mut Vec<Notice>)
        ensures
            final(self).descriptor() == old(self).descriptor(),
            final(self).section_list() == old(self).section_list(),
            (final(self).current_mode() is Menu),
            (final(self).menu_state() is Selecting),
    {
        notes.push(Notice::Line(owned("Welcome to WTFM Interactive Wizard!")));
        notes.push(Notice::Line(owned("Let's configure your documentation step by step.")));
        self.menu.run();
        self.mode = WizardMode::Menu;
    }

    /// Revisits the section named `section_name`, matched without regard to
    /// case; with no name, runs the full menu instead. A name that matches
    /// no section leaves nothing to do.
    pub fn edit_section(&mut self, section_name: Option<String>, notes: &mut Vec<Notice>)
        ensures
            final(self).descriptor() == old(self).descriptor(),
            final(self).section_list() == old(self).section_list(),
            section_name is None ==> (final(self).current_mode() is Menu && final(self).menu_state() is Selecting),
            section_name is Some ==> final(self).current_mode() == (match lookup_section(
                old(self).section_list(),
                section_name->0@,
            ) {
                Some(k) => WizardMode::Section(edit_entry(k, old(self).descriptor())),
                None => WizardMode::Idle,
            }),
    {
        match section_name {
            Some(name) => match self.menu.find_section(name.as_str()) {
                Some(k) => {
                    let flow = begin_edit(k, &self.config, notes);
                    self.mode = WizardMode::Section(flow);
                },
                None => {
                    self.mode = WizardMode::Idle;
                },
            },
            None => self.run(notes),
        }
    }

    /// The question to ask next, or `None` when there is nothing left to do.
    pub fn prompt(&self) -> (r: Option<Prompt>)
        ensures
            (self.current_mode() is Idle) ==> (r is None),
            (self.current_mode() is Section) ==> (r is Some && flow_prompt_is(
                self.current_mode()->Section_0,
                self.descriptor(),
                r->0,
            )),
            (self.current_mode() is Menu) ==> menu_prompt_is(
                self.menu_state(),
                self.section_list(),
                self.descriptor(),
                r,
            ),
    {
        match &self.mode {
            WizardMode::Idle => None,
            WizardMode::Menu => self.menu.prompt(&self.config),
            WizardMode::Section(flow) => Some(flow_prompt(flow, &self.config)),
        }
    }

    /// Takes the user's answer to the current question. Every section whose
    /// status agreed with its fields still does afterwards.
    pub fn answer(&mut self, answer: Answer, notes: &mut Vec<Notice>)
        ensures
            final(self).section_list() == old(self).section_list(),
            forall|o: SectionKind| #[trigger]
                consistent(o, old(self).descriptor()) ==> consistent(o, final(self).descriptor()),
            (old(self).current_mode() is Idle) ==> (final(self).current_mode() is Idle
                && final(self).descriptor() == old(self).descriptor()),
            (old(self).current_mode() is Menu) ==> (final(self).current_mode() is Menu && gate_step(
                old(self).menu_state(),
                final(self).menu_state(),
                old(self).section_list(),
                old(self).descriptor(),
                answer,
            )),
            (old(self).current_mode() is Menu && old(self).menu_state() is InSection) ==> (
            advance_post(
                old(self).menu_state()->InSection_flow,
                answer,
                old(self).descriptor(),
                final(self).descriptor(),
                section_in_control(final(self).menu_state()),
            ) && (final(self).menu_state() is Selecting || final(self).menu_state() is InSection)),
            (old(self).current_mode() is Menu && !(old(self).menu_state() is InSection)) ==> (final(self).descriptor()
                == old(self).descriptor()),
            (old(self).current_mode() is Section) ==> (advance_post(
                old(self).current_mode()->Section_0,
                answer,
                old(self).descriptor(),
                final(self).descriptor(),
                if final(self).current_mode() is Section {
                    Some(final(self).current_mode()->Section_0)
                } else {
                    None
                },
            ) && (final(self).current_mode() is Section || final(self).current_mode() is Idle)),
    {
        let mut mode = WizardMode::Idle;
        core::mem::swap(&mut self.mode, &mut mode);
        match mode {
            WizardMode::Idle => {},
            WizardMode::Menu => {
                self.menu.answer(&mut self.config, answer, notes);
                self.mode = WizardMode::Menu;
            },
            WizardMode::Section(flow) => match advance(flow, &mut self.config, answer, notes) {
                Some(f) => {
                    self.mode = WizardMode::Section(f);
                },
                None => {},
            },
        }
    }
}

} // verus!
