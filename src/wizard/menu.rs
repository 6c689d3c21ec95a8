use vstd::prelude::*;
use vstd::string::StringExecFns;
use crate::config::wtfm::{SectionStatus, StatusEntry, WtfmConfig};
use crate::wizard::prompt::{Answer, Notice, Prompt, choice_below, is_select, owned, views};
use crate::wizard::sections::{
    SectionFlow, SectionKind, advance, advance_post, begin_run, consistent, flow_kind, flow_prompt,
    flow_prompt_is, run_entry, section_description, section_name, status_of,
};

verus! {

/// What `str::to_lowercase` makes of a text.
pub uninterp spec fn lower_of(s: Seq<char>) -> Seq<char>;

/// Relies on str::to_lowercase: the lowercase form of the text, which
/// depends on its characters alone.
#[verifier::external_body]
fn lowercase(s: &str) -> (r: String)
    ensures
        r@ == lower_of(s@),
{
    s.to_lowercase()
}

/// Where the menu stands.
#[derive(Debug, PartialEq)]
pub enum MenuState {
    /// Showing the sections and "Done".
    Selecting,
    /// The section at `index` has control.
    InSection { index: usize, flow: SectionFlow },
    /// "Done" was chosen while a mandatory section is not configured: asking
    /// whether to exit anyway.
    BlockedExit,
    /// "Done" was chosen with every mandatory section configured: asking for
    /// confirmation.
    ConfirmExit,
    /// The user has finished.
    Finished,
}

/// The marker that shows a status in the menu.
pub open spec fn status_marker(s: SectionStatus) -> Seq<char> {
    match s {
        SectionStatus::NotConfigured => "[ ]"@,
        SectionStatus::Configured => "[\u{2713}]"@,
        SectionStatus::Skipped => "[\u{21b7}]"@,
    }
}

/// The three statuses have three different markers.
pub proof fn lemma_status_markers_distinct(a: SectionStatus, b: SectionStatus)
    ensures
        a != b ==> status_marker(a) != status_marker(b),
{
    reveal_strlit("[ ]");
    reveal_strlit("[\u{2713}]");
    reveal_strlit("[\u{21b7}]");
    if a != b {
        assert(status_marker(a)[1] != status_marker(b)[1]);
    }
}

/// The menu's line for section `k`: its status marker, name and purpose.
pub open spec fn menu_line(k: SectionKind, c: WtfmConfig) -> Seq<char> {
    status_marker(status_of(k, c)) + " "@ + section_name(k) + " - "@ + section_description(k)
}

/// The mandatory sections of `sections` that are not configured in `c`, in order.
pub open spec fn blocking_sections(sections: Seq<SectionKind>, c: WtfmConfig) -> Seq<SectionKind> {
    sections.filter(|k: SectionKind| blocks_exit(k, c))
}

/// Section `k` is mandatory and not configured in `c`.
pub open spec fn blocks_exit(k: SectionKind, c: WtfmConfig) -> bool {
    k == SectionKind::Project && status_of(k, c) == SectionStatus::NotConfigured
}

/// `after` is `before` followed by one error notice for each section of
/// `blocked`, naming it.
pub open spec fn reports(before: Seq<Notice>, after: Seq<Notice>, blocked: Seq<SectionKind>) -> bool {
    &&& after.len() == before.len() + blocked.len()
    &&& after.subrange(0, before.len() as int) == before
    &&& forall|i: int|
        0 <= i < blocked.len() ==> #[trigger] after[before.len() + i] is Error && after[before.len()
            + i]->Error_0@ == section_name(blocked[i]) + " must be configured before proceeding."@
}

/// The flow of the section in control, if one is.
pub open spec fn section_in_control(s: MenuState) -> Option<SectionFlow> {
    match s {
        MenuState::InSection { flow, .. } => Some(flow),
        _ => None,
    }
}

/// The question the menu asks in state `s`: the status-annotated list of
/// sections with "Done" after it, the section's own question while it has
/// control, and at the exit gate a question with "No, continue configuring"
/// first and the way out second.
pub open spec fn menu_prompt_is(
    s: MenuState,
    sections: Seq<SectionKind>,
    c: WtfmConfig,
    r: Option<Prompt>,
) -> bool {
    match s {
        MenuState::Selecting => r matches Some(Prompt::Select { label, items, start }) && label@
            == "Select a section to configure"@ && start == 0 && items@.len() == sections.len()
            + 1 && items@.last()@ == "Done"@ && forall|i: int|
            0 <= i < sections.len() ==> #[trigger] items@[i]@ == menu_line(sections[i], c),
        MenuState::InSection { flow, .. } => r is Some && flow_prompt_is(flow, c, r->0),
        MenuState::BlockedExit => r is Some && is_select(
            r->0,
            "Required sections are not configured. Do you want to exit anyway?"@,
            seq!["No, continue configuring"@, "Yes, exit"@],
            0,
        ),
        MenuState::ConfirmExit => r is Some && is_select(
            r->0,
            "Are you sure you want to finish?"@,
            seq!["No, continue configuring"@, "Yes, I'm done"@],
            0,
        ),
        MenuState::Finished => r is None,
    }
}

/// Some section in `sections` is mandatory and not configured in `c`.
pub open spec fn exit_blocked(sections: Seq<SectionKind>, c: WtfmConfig) -> bool {
    exists|i: int|
        0 <= i < sections.len() && #[trigger] sections[i] == SectionKind::Project && status_of(
            sections[i],
            c,
        ) == SectionStatus::NotConfigured
}

/// How an answer moves the menu outside the sections' own routines.
/// Choosing a section starts its first-time fill. Choosing the entry after
/// the sections asks whether to leave, more insistently when a mandatory
/// section is not configured. There the second option ends the loop and the
/// first goes back to the list.
pub open spec fn gate_step(
    before: MenuState,
    after: MenuState,
    sections: Seq<SectionKind>,
    c: WtfmConfig,
    a: Answer,
) -> bool {
    &&& (before is Selecting && a == Answer::Choice(sections.len() as usize)) ==> after == (if exit_blocked(sections, c) {
        MenuState::BlockedExit
    } else {
        MenuState::ConfirmExit
    })
    &&& (before is Selecting && a is Choice && a->Choice_0 < sections.len()) ==> after
        == (MenuState::InSection { index: a->Choice_0, flow: run_entry(sections[a->Choice_0 as int], c) })
    &&& ((before is BlockedExit || before is ConfirmExit) && a == Answer::Choice(1)) ==> (after is Finished)
    &&& ((before is BlockedExit || before is ConfirmExit) && a == Answer::Choice(0)) ==> (after is Selecting)
    &&& (before is Finished) ==> (after is Finished)
}

/// The lowercased names of the sections.
pub open spec fn folded_names(s: Seq<SectionKind>) -> Seq<Seq<char>> {
    s.map_values(|k: SectionKind| lower_of(section_name(k)))
}

/// The first of `sections` whose name equals `name` once both are
/// lowercased.
pub open spec fn lookup_section(s: Seq<SectionKind>, name: Seq<char>) -> Option<SectionKind> {
    if exists|i: int| first_match(folded_names(s), lower_of(name), i) {
        Some(s[choose|i: int| first_match(folded_names(s), lower_of(name), i)])
    } else {
        None
    }
}

/// `i` is the position of the first of `names` equal to `name`.
pub open spec fn first_match(names: Seq<Seq<char>>, name: Seq<char>, i: int) -> bool {
    0 <= i < names.len() && names[i] == name && forall|j: int| 0 <= j < i ==> names[j] != name
}

/// The position of the first of `names` equal to `name`, if any. The menu
/// uses it on lowercased names, so that a section is found whatever the
/// case of the name asked for.
pub fn position_of(names: &Vec<String>, name: &String) -> (r: Option<usize>)
    ensures
        r is Some ==> first_match(names@.map_values(|s: String| s@), name@, r->0 as int),
        r is None ==> forall|j: int| 0 <= j < names@.len() ==> names@[j]@ != name@,
{
    let mut i: usize = 0;
    while i < names.len()
        invariant
            i <= names@.len(),
            forall|j: int| 0 <= j < i ==> names@[j]@ != name@,
        decreases names@.len() - i,
    {
        if names[i] == *name {
            return Some(i);
        }
        i += 1;
    }
    None
}

/// The menu over an ordered list of sections, driving one descriptor.
pub struct Menu {
    sections: Vec<SectionKind>,
    state: MenuState,
}

impl Menu {
    /// The sections in display order.
    pub closed spec fn section_list(&self) -> Seq<SectionKind> {
        self.sections@
    }

    /// Where the menu stands.
    pub closed spec fn current(&self) -> MenuState {
        self.state
    }

    /// The section in control is the one at the recorded position.
    #[verifier::type_invariant]
    closed spec fn wf(&self) -> bool {
        self.state matches MenuState::InSection { index, flow } ==> index < self.sections@.len()
            && flow_kind(flow) == self.sections@[index as int]
    }

    /// A menu without sections, selecting.
    pub fn new() -> (r: Self)
        ensures
            r.section_list().len() == 0,
            (r.current() is Selecting),
    {
        Menu { sections: Vec::new(), state: MenuState::Selecting }
    }

    /// Adds a section at the end of the list.
    pub fn add_section(&mut self, section: SectionKind)
        ensures
            final(self).section_list() == old(self).section_list().push(section),
            final(self).current() == old(self).current(),
    {
        let mut taken = Menu::new();
        core::mem::swap(self, &mut taken);
        proof {
            use_type_invariant(&taken);
        }
        let Menu { sections, state } = taken;
        let mut sections = sections;
        sections.push(section);
        *self = Menu { sections, state };
    }

    /// The sections in display order.
    pub fn sections(&self) -> (r: &Vec<SectionKind>)
        ensures
            r@ == self.section_list(),
    {
        &self.sections
    }

    /// Where the menu stands.
    pub fn state(&self) -> (r: &MenuState)
        ensures
            *r == self.current(),
    {
        &self.state
    }

    /// Whether the user has finished.
    pub fn is_finished(&self) -> (r: bool)
        ensures
            r == (self.current() is Finished),
    {
        match self.state {
            MenuState::Finished => true,
            _ => false,
        }
    }

    /// Starts the menu loop: the menu shows the sections and waits for a
    /// choice. The loop then goes on answer by answer until the user finishes.
    pub fn run(&mut self)
        ensures
            (final(self).current() is Selecting),
            final(self).section_list() == old(self).section_list(),
    {
        self.state = MenuState::Selecting;
    }

    /// Each section with its status, in display order.
    pub fn get_sections_status(&self, config: &WtfmConfig) -> (r: Vec<StatusEntry>)
        ensures
            r@.len() == self.section_list().len(),
            forall|i: int|
                0 <= i < r@.len() ==> r@[i].section@ == section_name(self.section_list()[i])
                    && r@[i].status == status_of(self.section_list()[i], *config),
    {
        let mut r: Vec<StatusEntry> = Vec::new();
        let mut i: usize = 0;
        while i < self.sections.len()
            invariant
                i <= self.sections@.len(),
                r@.len() == i,
                forall|m: int|
                    0 <= m < i ==> r@[m].section@ == section_name(self.sections@[m])
                        && r@[m].status == status_of(self.sections@[m], *config),
            decreases self.sections@.len() - i,
        {
            let k = self.sections[i];
            r.push(StatusEntry { section: String::from_str(k.name()), status: k.status(config) });
            i += 1;
        }
        r
    }

    /// The first section whose name equals `name` once both are lowercased.
    pub fn find_section(&self, name: &str) -> (r: Option<SectionKind>)
        ensures
            r == lookup_section(self.section_list(), name@),
    {
        let wanted = lowercase(name);
        let mut names: Vec<String> = Vec::new();
        let mut i: usize = 0;
        while i < self.sections.len()
            invariant
                i <= self.sections@.len(),
                names@.len() == i,
                forall|m: int| 0 <= m < i ==> #[trigger] names@[m]@ == lower_of(section_name(self.sections@[m])),
            decreases self.sections@.len() - i,
        {
            names.push(lowercase(self.sections[i].name()));
            i += 1;
        }
        let ghost folded = folded_names(self.sections@);
        assert(names@.map_values(|s: String| s@) =~= folded);
        match position_of(&names, &wanted) {
            Some(p) => {
                let ghost ln = lower_of(name@);
                assert(first_match(folded, ln, p as int));
                assert forall|i: int| first_match(folded, ln, i) implies i == p as int by {
                    if i < p as int {
                        assert(folded[i] == names@[i]@);
                    }
                }
                assert(self.section_list() == self.sections@);
                Some(self.sections[p])
            },
            None => {
                assert forall|i: int| 0 <= i < self.sections@.len() implies lower_of(
                    section_name(self.sections@[i]),
                ) != lower_of(name@) by {
                    assert(names@[i]@ == lower_of(section_name(self.sections@[i])));
                }
                assert forall|i: int| !first_match(folded, lower_of(name@), i) by {
                    if 0 <= i < folded.len() {
                        assert(names@[i]@ == folded[i]);
                    }
                }
                assert(self.section_list() == self.sections@);
                None
            },
        }
    }

    /// One line of the menu: the status marker, the name and the purpose.
    fn option_line(k: SectionKind, config: &WtfmConfig) -> (r: String)
        ensures
            r@ == menu_line(k, *config),
    {
        let marker = match k.status(config) {
            SectionStatus::NotConfigured => "[ ]",
            SectionStatus::Configured => "[\u{2713}]",
            SectionStatus::Skipped => "[\u{21b7}]",
        };
        owned(marker).concat(" ").concat(k.name()).concat(" - ").concat(k.description())
    }

    /// The question the menu asks next, or `None` once the user has finished.
    pub fn prompt(&self, config: &WtfmConfig) -> (r: Option<Prompt>)
        ensures
            r is None <==> (self.current() is Finished),
            menu_prompt_is(self.current(), self.section_list(), *config, r),
    {
        match &self.state {
            MenuState::Selecting => {
                let mut items: Vec<String> = Vec::new();
                let mut i: usize = 0;
                while i < self.sections.len()
                    invariant
                        i <= self.sections@.len(),
                        items@.len() == i,
                        forall|m: int| 0 <= m < i ==> #[trigger] items@[m]@ == menu_line(self.sections@[m], *config),
                    decreases self.sections@.len() - i,
                {
                    items.push(Menu::option_line(self.sections[i], config));
                    i += 1;
                }
                items.push(owned("Done"));
                Some(Prompt::Select { label: owned("Select a section to configure"), items, start: 0 })
            },
            MenuState::InSection { flow, .. } => Some(flow_prompt(flow, config)),
            MenuState::BlockedExit => {
                let items = vec![owned("No, continue configuring"), owned("Yes, exit")];
                assert(views(items@) =~= seq!["No, continue configuring"@, "Yes, exit"@]);
                Some(Prompt::Select {
                    label: owned("Required sections are not configured. Do you want to exit anyway?"),
                    items,
                    start: 0,
                })
            },
            MenuState::ConfirmExit => {
                let items = vec![owned("No, continue configuring"), owned("Yes, I'm done")];
                assert(views(items@) =~= seq!["No, continue configuring"@, "Yes, I'm done"@]);
                Some(Prompt::Select {
                    label: owned("Are you sure you want to finish?"),
                    items,
                    start: 0,
                })
            },
            MenuState::Finished => None,
        }
    }

    /// Whether a mandatory section is not configured; names each one in an
    /// error notice.
    fn check_exit(&self, config: &WtfmConfig, notes: &mut Vec<Notice>) -> (r: bool)
        ensures
            r == exit_blocked(self.section_list(), *config),
            reports(old(notes)@, final(notes)@, blocking_sections(self.section_list(), *config)),
    {
        let ghost start = notes@;
        let ghost pred = |k: SectionKind| blocks_exit(k, *config);
        let mut blocked = false;
        let mut i: usize = 0;
        assert(start.subrange(0, start.len() as int) =~= start);
        assert(self.sections@.subrange(0, 0).filter(pred) =~= Seq::<SectionKind>::empty());
        while i < self.sections.len()
            invariant
                i <= self.sections@.len(),
                start == old(notes)@,
                pred == (|k: SectionKind| blocks_exit(k, *config)),
                reports(start, notes@, self.sections@.subrange(0, i as int).filter(pred)),
                blocked == exists|m: int|
                    0 <= m < i && #[trigger] self.sections@[m] == SectionKind::Project && status_of(
                        self.sections@[m],
                        *config,
                    ) == SectionStatus::NotConfigured,
            decreases self.sections@.len() - i,
        {
            let k = self.sections[i];
            let ghost done = self.sections@.subrange(0, i as int);
            proof {
                assert(self.sections@.subrange(0, i as int + 1) =~= done.push(k));
                done.lemma_filter_push(k, pred);
            }
            if !k.can_skip() && k.status(config) == SectionStatus::NotConfigured {
                let ghost before = notes@;
                notes.push(
                    Notice::Error(
                        owned(k.name()).concat(" must be configured before proceeding."),
                    ),
                );
                proof {
                    let b = done.filter(pred);
                    assert(pred(k));
                    assert forall|j: int| 0 <= j < b.len() + 1 implies #[trigger] notes@[start.len() + j]
                        is Error && notes@[start.len() + j]->Error_0@ == section_name(b.push(k)[j])
                        + " must be configured before proceeding."@ by {
                        if j < b.len() {
                            assert(notes@[start.len() + j] == before[start.len() + j]);
                        }
                    }
                    assert(notes@.subrange(0, start.len() as int) =~= before.subrange(0, start.len() as int));
                }
                blocked = true;
            }
            i += 1;
        }
        proof {
            assert(self.sections@.subrange(0, self.sections@.len() as int) =~= self.sections@);
        }
        blocked
    }

    /// Takes the user's answer to the menu's question.
    ///
    /// While selecting, a section's position hands control to that section's
    /// first-time fill, and "Done" (the position after the sections) leads
    /// to the exit gate: to `BlockedExit` if a mandatory section is not
    /// configured, to `ConfirmExit` otherwise. There "Yes" finishes and "No"
    /// returns to selecting. When a section's routine is over the menu
    /// selects again. An answer that fits no option is asked again.
    pub fn answer(&mut self, config: &mut WtfmConfig, answer: Answer, notes: &mut Vec<Notice>)
        ensures
            old(self).current() matches MenuState::InSection { index, flow } ==> consistent(
                old(self).section_list()[index as int],
                *final(config),
            ),
            (old(self).current() is InSection) ==> (advance_post(
                old(self).current()->InSection_flow,
                answer,
                *old(config),
                *final(config),
                section_in_control(final(self).current()),
            ) && (final(self).current() is Selecting || (final(self).current() is InSection
                && final(self).current()->InSection_index == old(self).current()->InSection_index))),
            (old(self).current() is Selecting && answer == Answer::Choice(
                old(self).section_list().len() as usize,
            )) ==> reports(
                old(notes)@,
                final(notes)@,
                blocking_sections(old(self).section_list(), *old(config)),
            ),
            final(self).section_list() == old(self).section_list(),
            forall|o: SectionKind| #[trigger]
                consistent(o, *old(config)) ==> consistent(o, *final(config)),
            old(self).current() is InSection ==> consistent(
                flow_kind(old(self).current()->InSection_flow),
                *final(config),
            ),
            !(old(self).current() is InSection) ==> *final(config) == *old(config),
            gate_step(old(self).current(), final(self).current(), old(self).section_list(), *old(config), answer),
    {
        proof {
            use_type_invariant(&*self);
        }
        let mut state = MenuState::Finished;
        core::mem::swap(&mut self.state, &mut state);
        let next = match state {
            MenuState::Selecting => {
                let n = self.sections.len();
                match answer {
                    Answer::Choice(i) => {
                        if i < n {
                            let flow = begin_run(self.sections[i], config, notes);
                            MenuState::InSection { index: i, flow }
                        } else if i > n {
                            MenuState::Selecting
                        } else if self.check_exit(config, notes) {
                            MenuState::BlockedExit
                        } else {
                            MenuState::ConfirmExit
                        }
                    },
                    _ => MenuState::Selecting,
                }
            },
            MenuState::InSection { index, flow } => match advance(flow, config, answer, notes) {
                Some(f) => MenuState::InSection { index, flow: f },
                None => MenuState::Selecting,
            },
            MenuState::BlockedExit => match choice_below(&answer, 2) {
                Some(1) => MenuState::Finished,
                Some(_) => MenuState::Selecting,
                None => MenuState::BlockedExit,
            },
            MenuState::ConfirmExit => match choice_below(&answer, 2) {
                Some(1) => MenuState::Finished,
                Some(_) => MenuState::Selecting,
                None => MenuState::ConfirmExit,
            },
            MenuState::Finished => MenuState::Finished,
        };
        self.state = next;
    }
}

} // verus!
