use vstd::prelude::*;

verus! {

/// Completion state of one section of the descriptor.
#[derive(Clone, Copy, Debug, PartialEq, Eq, Structural)]
pub enum SectionStatus {
    NotConfigured,
    Configured,
    Skipped,
}

/// A license as the descriptor records it.
#[derive(Clone, Debug)]
pub struct License {
    pub name: String,
    pub spdx_id: String,
    pub url: String,
}

impl PartialEq for License {
    fn eq(&self, o: &License) -> (r: bool) {
        self.name == o.name && self.spdx_id == o.spdx_id && self.url == o.url
    }
}

impl vstd::std_specs::cmp::PartialEqSpecImpl for License {
    open spec fn obeys_eq_spec() -> bool {
        true
    }

    open spec fn eq_spec(&self, o: &License) -> bool {
        self.name@ == o.name@ && self.spdx_id@ == o.spdx_id@ && self.url@ == o.url@
    }
}

/// A project author.
#[derive(Clone, Debug)]
pub struct Author {
    pub name: String,
    pub email: String,
}

impl PartialEq for Author {
    fn eq(&self, o: &Author) -> (r: bool) {
        self.name == o.name && self.email == o.email
    }
}

impl vstd::std_specs::cmp::PartialEqSpecImpl for Author {
    open spec fn obeys_eq_spec() -> bool {
        true
    }

    open spec fn eq_spec(&self, o: &Author) -> bool {
        self.name@ == o.name@ && self.email@ == o.email@
    }
}

/// Version-control details detected for the project.
#[derive(Clone, Debug)]
pub struct GitInfo {
    pub repository: String,
    pub branch: String,
    pub remote_url: String,
}

/// Package-manifest details detected for the project.
#[derive(Clone, Debug)]
pub struct CargoInfo {
    pub dependencies: Vec<String>,
    pub dev_dependencies: Vec<String>,
}

/// One entry of the status ledger.
#[derive(Clone, Debug)]
pub struct StatusEntry {
    pub section: String,
    pub status: SectionStatus,
}

/// The map from section name to status, kept as a list of entries in the
/// order in which the names were first recorded. The first entry of a name
/// is the one that counts; `set` never adds a second one.
#[derive(Clone, Debug)]
pub struct StatusLedger {
    pub entries: Vec<StatusEntry>,
}

/// The map described by the entries from position `i` on; an earlier entry
/// shadows a later one with the same name.
pub open spec fn ledger_from(s: Seq<StatusEntry>, i: int) -> Map<Seq<char>, SectionStatus>
    decreases s.len() - i,
{
    if i >= s.len() {
        Map::empty()
    } else {
        ledger_from(s, i + 1).insert(s[i].section@, s[i].status)
    }
}

/// The status recorded for `name`, where a missing entry reads as `NotConfigured`.
pub open spec fn status_in(m: Map<Seq<char>, SectionStatus>, name: Seq<char>) -> SectionStatus {
    if m.contains_key(name) {
        m[name]
    } else {
        SectionStatus::NotConfigured
    }
}

impl View for StatusLedger {
    type V = Map<Seq<char>, SectionStatus>;

    open spec fn view(&self) -> Map<Seq<char>, SectionStatus> {
        ledger_from(self.entries@, 0)
    }
}

proof fn lemma_ledger_skip(s: Seq<StatusEntry>, j: int, p: int, k: Seq<char>)
    requires
        0 <= j <= p <= s.len(),
        forall|m: int| j <= m < p ==> s[m].section@ != k,
    ensures
        ledger_from(s, j).contains_key(k) == ledger_from(s, p).contains_key(k),
        ledger_from(s, j).contains_key(k) ==> ledger_from(s, j)[k] == ledger_from(s, p)[k],
    decreases p - j,
{
    if j < p {
        lemma_ledger_skip(s, j + 1, p, k);
    }
}

proof fn lemma_ledger_same_suffix(s: Seq<StatusEntry>, t: Seq<StatusEntry>, j: int)
    requires
        0 <= j,
        s.len() == t.len(),
        forall|m: int| j <= m < s.len() ==> s[m] == t[m],
    ensures
        ledger_from(s, j) == ledger_from(t, j),
    decreases s.len() - j,
{
    if j < s.len() {
        lemma_ledger_same_suffix(s, t, j + 1);
    }
}

proof fn lemma_ledger_shift(
    s: Seq<StatusEntry>,
    t: Seq<StatusEntry>,
    j: int,
    p: int,
    k: Seq<char>,
    v: SectionStatus,
)
    requires
        0 <= j <= p,
        p <= s.len(),
        p <= t.len(),
        forall|m: int| j <= m < p ==> t[m] == s[m] && s[m].section@ != k,
        ledger_from(t, p) == ledger_from(s, p).insert(k, v),
    ensures
        ledger_from(t, j) == ledger_from(s, j).insert(k, v),
    decreases p - j,
{
    if j < p {
        lemma_ledger_shift(s, t, j + 1, p, k, v);
        assert(ledger_from(t, j) =~= ledger_from(s, j).insert(k, v));
    }
}

impl StatusLedger {
    /// No name is recorded twice.
    pub open spec fn keys_unique(&self) -> bool {
        forall|i: int, j: int|
            0 <= i < j < self.entries@.len() ==> self.entries@[i].section@
                != self.entries@[j].section@
    }

    /// An empty ledger.
    pub fn new() -> (r: Self)
        ensures
            r@ == Map::<Seq<char>, SectionStatus>::empty(),
            r.keys_unique(),
    {
        let r = StatusLedger { entries: Vec::new() };
        assert(r@ =~= Map::<Seq<char>, SectionStatus>::empty());
        r
    }

    /// The number of recorded entries.
    pub fn len(&self) -> (r: usize)
        ensures
            r == self.entries@.len(),
    {
        self.entries.len()
    }

    /// The status recorded for `section`, if any.
    pub fn get(&self, section: &String) -> (r: Option<SectionStatus>)
        ensures
            r is Some <==> self@.contains_key(section@),
            r is Some ==> r->0 == self@[section@],
    {
        let mut i: usize = 0;
        while i < self.entries.len()
            invariant
                i <= self.entries@.len(),
                forall|m: int| 0 <= m < i ==> self.entries@[m].section@ != section@,
            decreases self.entries@.len() - i,
        {
            if self.entries[i].section == *section {
                proof {
                    lemma_ledger_skip(self.entries@, 0, i as int, section@);
                }
                return Some(self.entries[i].status);
            }
            i += 1;
        }
        proof {
            lemma_ledger_skip(self.entries@, 0, i as int, section@);
        }
        None
    }

    /// The status of `section`, `NotConfigured` where nothing is recorded.
    pub fn status(&self, section: &String) -> (r: SectionStatus)
        ensures
            r == status_in(self@, section@),
    {
        match self.get(section) {
            Some(s) => s,
            None => SectionStatus::NotConfigured,
        }
    }

    /// Records `status` for `section`, replacing the entry of that name if
    /// there is one and appending one otherwise.
    pub fn set(&mut self, section: &String, status: SectionStatus)
        ensures
            final(self)@ == old(self)@.insert(section@, status),
            old(self).keys_unique() ==> final(self).keys_unique(),
    {
        let ghost s = self.entries@;
        let ghost k = section@;
        let mut i: usize = 0;
        while i < self.entries.len()
            invariant
                self.entries@ == s,
                old(self).entries@ == s,
                k == section@,
                i <= s.len(),
                forall|m: int| 0 <= m < i ==> s[m].section@ != k,
            decreases s.len() - i,
        {
            if self.entries[i].section == *section {
                let entry = StatusEntry { section: section.clone(), status };
                self.entries.set(i, entry);
                proof {
                    let t = self.entries@;
                    lemma_ledger_same_suffix(s, t, i as int + 1);
                    assert(ledger_from(t, i as int) =~= ledger_from(s, i as int).insert(k, status));
                    lemma_ledger_shift(s, t, 0, i as int, k, status);
                    assert(forall|m: int| 0 <= m < t.len() ==> t[m].section@ == s[m].section@);
                }
                return;
            }
            i += 1;
        }
        let entry = StatusEntry { section: section.clone(), status };
        self.entries.push(entry);
        proof {
            let t = self.entries@;
            assert(ledger_from(t, s.len() as int + 1) =~= Map::empty());
            assert(ledger_from(t, s.len() as int) =~= ledger_from(s, s.len() as int).insert(k, status));
            lemma_ledger_shift(s, t, 0, s.len() as int, k, status);
        }
    }
}

/// The descriptor that the wizard builds: every section reads and writes
/// its own fields here, and records its completion in `sections_status`.
#[derive(Clone, Debug)]
pub struct WtfmConfig {
    pub project_name: String,
    pub description: String,
    pub version: String,
    pub authors: Vec<Author>,
    pub license: Option<License>,
    pub setup_ci: bool,
    pub ci_platform: Option<String>,
    pub ci_features: Vec<String>,
    pub ci_branches: Vec<String>,
    pub features: Vec<String>,
    pub prerequisites: Vec<String>,
    pub install_steps: Vec<String>,
    pub sections_status: StatusLedger,
    pub git_info: Option<GitInfo>,
    pub cargo_info: Option<CargoInfo>,
}

impl WtfmConfig {
    /// Nothing has been filled in and no status is recorded.
    pub open spec fn is_fresh(&self) -> bool {
        &&& self.project_name@.len() == 0
        &&& self.description@.len() == 0
        &&& self.version@.len() == 0
        &&& self.authors@.len() == 0
        &&& self.license is None
        &&& !self.setup_ci
        &&& self.ci_platform is None
        &&& self.ci_features@.len() == 0
        &&& self.ci_branches@.len() == 0
        &&& self.features@.len() == 0
        &&& self.prerequisites@.len() == 0
        &&& self.install_steps@.len() == 0
        &&& self.sections_status@ == Map::<Seq<char>, SectionStatus>::empty()
        &&& self.sections_status.keys_unique()
        &&& self.git_info is None
        &&& self.cargo_info is None
    }
}

impl Default for WtfmConfig {
    fn default() -> (r: Self)
        ensures
            r.is_fresh(),
    {
        WtfmConfig {
            project_name: String::new(),
            description: String::new(),
            version: String::new(),
            authors: Vec::new(),
            license: None,
            setup_ci: false,
            ci_platform: None,
            ci_features: Vec::new(),
            ci_branches: Vec::new(),
            features: Vec::new(),
            prerequisites: Vec::new(),
            install_steps: Vec::new(),
            sections_status: StatusLedger::new(),
            git_info: None,
            cargo_info: None,
        }
    }
}

} // verus!
