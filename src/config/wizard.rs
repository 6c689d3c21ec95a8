use vstd::prelude::*;
use vstd::string::StringExecFns;
use crate::licenses::{License, LicenseCategory, is_catalog};

verus! {

/// The answers of the short questionnaire: project identity, a license of
/// the catalog, whether to set up CI, and the authors' names.
pub struct WizardAnswers {
    pub project_name: String,
    pub description: String,
    pub version: String,
    pub license: License,
    pub setup_ci: bool,
    pub author_quantity: u32,
    pub authors: Vec<String>,
}

/// `items` joined with `sep` between each two.
pub open spec fn joined(items: Seq<Seq<char>>, sep: Seq<char>) -> Seq<char>
    decreases items.len(),
{
    if items.len() == 0 {
        Seq::empty()
    } else if items.len() == 1 {
        items[0]
    } else {
        joined(items.drop_last(), sep) + sep + items.last()
    }
}

/// The texts of `items` joined with `sep` between each two.
pub fn join(items: &Vec<String>, sep: &str) -> (r: String)
    ensures
        r@ == joined(items@.map_values(|s: String| s@), sep@),
{
    let ghost views = items@.map_values(|s: String| s@);
    let mut r = String::new();
    let mut i: usize = 0;
    while i < items.len()
        invariant
            i <= items@.len(),
            views == items@.map_values(|s: String| s@),
            r@ == joined(views.subrange(0, i as int), sep@),
        decreases items@.len() - i,
    {
        if i > 0 {
            r.append(sep);
        }
        r.append(items[i].as_str());
        proof {
            let next = views.subrange(0, i as int + 1);
            assert(next.drop_last() =~= views.subrange(0, i as int));
        }
        i += 1;
    }
    assert(views.subrange(0, items@.len() as int) =~= views);
    r
}

/// How a flag is written: `true` or `false`.
pub fn flag_text(b: bool) -> (r: String)
    ensures
        r@ == (if b {
            "true"@
        } else {
            "false"@
        }),
{
    if b {
        String::from_str("true")
    } else {
        String::from_str("false")
    }
}

impl WizardAnswers {
    /// A fixed set of answers for trying things out.
    pub fn new_test() -> (r: Self)
        ensures
            r.project_name@ == "Test Project"@,
            r.description@ == "A test project"@,
            r.version@ == "0.1.0"@,
            r.license.spdx_id@ == "MIT"@,
            r.license.name@ == "MIT License"@,
            r.license.category == LicenseCategory::Permissive,
            r.license.osi_approved && r.license.fsf_libre && !r.license.deprecated,
            r.license.url is None,
            r.setup_ci,
            r.author_quantity == 2,
            r.authors@.len() == 2,
            r.authors@[0]@ == "Author 1"@,
            r.authors@[1]@ == "Author 2"@,
    {
        WizardAnswers {
            project_name: String::from_str("Test Project"),
            description: String::from_str("A test project"),
            version: String::from_str("0.1.0"),
            license: License::new("MIT", "MIT License", LicenseCategory::Permissive, true, true, false),
            setup_ci: true,
            author_quantity: 2,
            authors: vec![String::from_str("Author 1"), String::from_str("Author 2")],
        }
    }

    /// The answers as given: the license is the catalog entry at
    /// `license_choice`, CI is set up when the first of Yes/No was chosen,
    /// and an empty version stands for 0.1.0. `None` when the license choice
    /// is outside the catalog or the authors are too many to count in 32
    /// bits.
    pub fn from_choices(
        project_name: String,
        description: String,
        version: String,
        license_choice: usize,
        ci_choice: usize,
        authors: Vec<String>,
    ) -> (r: Option<Self>)
        ensures
            r is Some <==> license_choice < 3 && authors@.len() <= u32::MAX,
            r is Some ==> exists|all: Seq<License>|
                is_catalog(all) && r->0.license == all[license_choice as int],
            r is Some ==> r->0.project_name == project_name && r->0.description == description
                && r->0.version@ == (if version@.len() == 0 {
                "0.1.0"@
            } else {
                version@
            }) && r->0.setup_ci == (ci_choice == 0) && r->0.author_quantity as int
                == authors@.len() && r->0.authors@ == authors@,
    {
        if license_choice >= 3 || authors.len() > u32::MAX as usize {
            return None;
        }
        let mut all = License::get_licenses();
        let ghost a = all@;
        let license = all.remove(license_choice);
        let version = if version.as_str().is_empty() {
            String::from_str("0.1.0")
        } else {
            version
        };
        let author_quantity = authors.len() as u32;
        Some(WizardAnswers {
            project_name,
            description,
            version,
            license,
            setup_ci: ci_choice == 0,
            author_quantity,
            authors,
        })
    }

    /// The answers as text, one labelled line each.
    pub fn summary(&self) -> (r: String)
        ensures
            r@ == "Project: "@ + self.project_name@ + "\nDescription: "@ + self.description@
                + "\nVersion: "@ + self.version@ + "\nLicense: "@ + self.license.name@ + " ("@
                + self.license.spdx_id@ + ")\nSetup CI: "@ + (if self.setup_ci {
                "true"@
            } else {
                "false"@
            }) + "\nAuthors: "@ + joined(self.authors@.map_values(|s: String| s@), ", "@),
    {
        let flag = flag_text(self.setup_ci);
        let names = join(&self.authors, ", ");
        String::from_str("Project: ")
            .concat(self.project_name.as_str())
            .concat("\nDescription: ")
            .concat(self.description.as_str())
            .concat("\nVersion: ")
            .concat(self.version.as_str())
            .concat("\nLicense: ")
            .concat(self.license.name.as_str())
            .concat(" (")
            .concat(self.license.spdx_id.as_str())
            .concat(")\nSetup CI: ")
            .concat(flag.as_str())
            .concat("\nAuthors: ")
            .concat(names.as_str())
    }
}

} // verus!
