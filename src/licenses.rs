use vstd::prelude::*;
use vstd::string::StringExecFns;

verus! {

/// The family a license belongs to.
#[derive(Clone, Copy, Debug, PartialEq, Eq, Structural)]
pub enum LicenseCategory {
    Permissive,
    Copyleft,
    WeakCopyleft,
    PublicDomain,
    Creative,
}

/// A license of the catalog, with what is known about it.
#[derive(Clone, Debug)]
pub struct License {
    pub spdx_id: String,
    pub name: String,
    pub category: LicenseCategory,
    pub osi_approved: bool,
    pub fsf_libre: bool,
    pub deprecated: bool,
    pub url: Option<String>,
}

/// The selections the catalog offers.
#[derive(Clone, Copy, Debug, PartialEq, Eq, Structural)]
pub enum LicenseFilter {
    Active,
    OsiApproved,
    FsfLibre,
}

/// Whether a license belongs to a selection: every selection leaves out the
/// deprecated ones.
pub open spec fn passes(f: LicenseFilter, l: License) -> bool {
    match f {
        LicenseFilter::Active => !l.deprecated,
        LicenseFilter::OsiApproved => l.osi_approved && !l.deprecated,
        LicenseFilter::FsfLibre => l.fsf_libre && !l.deprecated,
    }
}

/// A catalog entry with the given identifier, name, category and flags.
pub open spec fn entry_is(
    l: License,
    spdx_id: Seq<char>,
    name: Seq<char>,
    category: LicenseCategory,
    osi: bool,
    fsf: bool,
) -> bool {
    &&& l.spdx_id@ == spdx_id
    &&& l.name@ == name
    &&& l.category == category
    &&& l.osi_approved == osi
    &&& l.fsf_libre == fsf
    &&& !l.deprecated
    &&& l.url is None
}

/// The catalog: MIT, Apache 2.0 and GPL 3.0, in that order.
pub open spec fn is_catalog(s: Seq<License>) -> bool {
    &&& s.len() == 3
    &&& entry_is(s[0], "MIT"@, "MIT License"@, LicenseCategory::Permissive, true, true)
    &&& entry_is(
        s[1],
        "Apache-2.0"@,
        "Apache License 2.0"@,
        LicenseCategory::Permissive,
        true,
        true,
    )
    &&& entry_is(
        s[2],
        "GPL-3.0-only"@,
        "GNU General Public License v3.0 only"@,
        LicenseCategory::Copyleft,
        true,
        true,
    )
}

impl License {
    /// A license with the given details and no URL.
    pub fn new(
        spdx_id: &str,
        name: &str,
        category: LicenseCategory,
        osi_approved: bool,
        fsf_libre: bool,
        deprecated: bool,
    ) -> (r: Self)
        ensures
            r.spdx_id@ == spdx_id@,
            r.name@ == name@,
            r.category == category,
            r.osi_approved == osi_approved,
            r.fsf_libre == fsf_libre,
            r.deprecated == deprecated,
            r.url is None,
    {
        License {
            spdx_id: String::from_str(spdx_id),
            name: String::from_str(name),
            category,
            osi_approved,
            fsf_libre,
            deprecated,
            url: None,
        }
    }

    /// The whole catalog.
    pub fn get_licenses() -> (r: Vec<License>)
        ensures
            is_catalog(r@),
    {
        vec![
            License::new("MIT", "MIT License", LicenseCategory::Permissive, true, true, false),
            License::new(
                "Apache-2.0",
                "Apache License 2.0",
                LicenseCategory::Permissive,
                true,
                true,
                false,
            ),
            License::new(
                "GPL-3.0-only",
                "GNU General Public License v3.0 only",
                LicenseCategory::Copyleft,
                true,
                true,
                false,
            ),
        ]
    }

    /// The licenses of `list` that belong to selection `f`, in order.
    pub fn select(list: Vec<License>, f: LicenseFilter) -> (r: Vec<License>)
        ensures
            r@ == list@.filter(|l: License| passes(f, l)),
    {
        let ghost pred = |l: License| passes(f, l);
        let ghost s = list@;
        let mut list = list;
        let mut r: Vec<License> = Vec::new();
        let mut i: usize = 0;
        let n = list.len();
        while i < n
            invariant
                n == s.len(),
                i <= n,
                pred == (|l: License| passes(f, l)),
                list@ == s.subrange(i as int, n as int),
                r@ == s.subrange(0, i as int).filter(pred),
            decreases n - i,
        {
            let l = list.remove(0);
            assert(list@ =~= s.subrange(i as int + 1, n as int));
            proof {
                assert(l == s[i as int]);
                assert(s.subrange(0, i as int + 1) =~= s.subrange(0, i as int).push(l));
                s.subrange(0, i as int).lemma_filter_push(l, pred);
            }
            let keep = match f {
                LicenseFilter::Active => !l.deprecated,
                LicenseFilter::OsiApproved => l.osi_approved && !l.deprecated,
                LicenseFilter::FsfLibre => l.fsf_libre && !l.deprecated,
            };
            assert(keep == pred(l));
            if keep {
                r.push(l);
            }
            i += 1;
        }
        assert(s.subrange(0, n as int) =~= s);
        r
    }

    /// The catalog without deprecated licenses.
    pub fn get_active_licenses() -> (r: Vec<License>)
        ensures
            exists|all: Seq<License>|
                is_catalog(all) && r@ == all.filter(|l: License| passes(LicenseFilter::Active, l)),
    {
        let all = License::get_licenses();
        let ghost a = all@;
        let r = License::select(all, LicenseFilter::Active);
        assert(is_catalog(a));
        r
    }

    /// The OSI-approved licenses of the catalog that are not deprecated.
    pub fn get_osi_approved() -> (r: Vec<License>)
        ensures
            exists|all: Seq<License>|
                is_catalog(all) && r@ == all.filter(
                    |l: License| passes(LicenseFilter::OsiApproved, l),
                ),
    {
        let all = License::get_licenses();
        let ghost a = all@;
        let r = License::select(all, LicenseFilter::OsiApproved);
        assert(is_catalog(a));
        r
    }

    /// The FSF-libre licenses of the catalog that are not deprecated.
    pub fn get_fsf_libre() -> (r: Vec<License>)
        ensures
            exists|all: Seq<License>|
                is_catalog(all) && r@ == all.filter(|l: License| passes(LicenseFilter::FsfLibre, l)),
    {
        let all = License::get_licenses();
        let ghost a = all@;
        let r = License::select(all, LicenseFilter::FsfLibre);
        assert(is_catalog(a));
        r
    }

    /// How the license is shown: its name.
    pub fn display_name(&self) -> (r: String)
        ensures
            r@ == self.name@,
    {
        self.name.clone()
    }
}

} // verus!
