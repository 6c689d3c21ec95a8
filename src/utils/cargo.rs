use vstd::prelude::*;
use vstd::string::{StrSliceExecFns, StringExecFns};

verus! {

/// What the manifest of a Rust package tells about it.
pub struct CargoInfo {
    pub package_name: Option<String>,
    pub version: Option<String>,
    pub authors: Vec<String>,
    pub description: Option<String>,
    pub repository: Option<String>,
    pub keywords: Vec<String>,
    pub categories: Vec<String>,
}

/// A project folder and, where it holds a package manifest, what it tells.
pub struct Cargo {
    path: String,
    info: Option<CargoInfo>,
}

/// The string that TOML document `text` holds under `key` in its table
/// `table`, if the document parses, has that table, and the entry there is a
/// string.
pub uninterp spec fn toml_table_string(text: Seq<char>, table: Seq<char>, key: Seq<char>) -> Option<
    Seq<char>,
>;

/// The view of an optional text.
pub open spec fn opt_view(o: Option<String>) -> Option<Seq<char>> {
    match o {
        Some(s) => Some(s@),
        None => None,
    }
}

/// Relies on `<toml::Value as FromStr>::from_str`, `toml::Value::get` and
/// `toml::Value::as_str`: parses the document, looks up the table and the
/// key in it, and reads the entry as a string.
#[verifier::external_body]
fn table_string(text: &str, table: &str, key: &str) -> (r: Option<String>)
    ensures
        opt_view(r) == toml_table_string(text@, table@, key@),
{
    let doc: toml::Value = text.parse().ok()?;
    doc.get(table)?.get(key)?.as_str().map(String::from)
}

/// The pieces of `s` between the occurrences of `c`; a text without `c`
/// is one piece, and the empty text is one empty piece.
pub open spec fn split_on(s: Seq<char>, c: char) -> Seq<Seq<char>>
    decreases s.len(),
{
    if s.len() == 0 {
        seq![Seq::empty()]
    } else {
        let front = split_on(s.drop_last(), c);
        if s.last() == c {
            front.push(Seq::empty())
        } else {
            front.update(front.len() - 1, front.last().push(s.last()))
        }
    }
}

proof fn lemma_split_nonempty(s: Seq<char>, c: char)
    ensures
        split_on(s, c).len() >= 1,
    decreases s.len(),
{
    if s.len() > 0 {
        lemma_split_nonempty(s.drop_last(), c);
    }
}

/// The pieces of `s` between its commas.
pub fn split_commas(s: &str) -> (r: Vec<String>)
    ensures
        r@.map_values(|p: String| p@) == split_on(s@, ','),
{
    let n = s.unicode_len();
    let mut parts: Vec<String> = Vec::new();
    let mut start: usize = 0;
    let mut i: usize = 0;
    assert(s@.subrange(0, 0) =~= Seq::<char>::empty());
    assert(parts@.map_values(|p: String| p@).push(s@.subrange(0, 0)) =~= split_on(s@.subrange(0, 0), ','));
    while i < n
        invariant
            n == s@.len(),
            start <= i <= n,
            parts@.map_values(|p: String| p@).push(s@.subrange(start as int, i as int)) == split_on(
                s@.subrange(0, i as int),
                ',',
            ),
        decreases n - i,
    {
        let ch = s.get_char(i);
        let ghost pv = parts@.map_values(|p: String| p@);
        let ghost cur = s@.subrange(start as int, i as int);
        let ghost pre = s@.subrange(0, i as int);
        let ghost next = s@.subrange(0, i as int + 1);
        proof {
            assert(next.drop_last() =~= pre);
            assert(next.last() == ch);
            lemma_split_nonempty(pre, ',');
            assert(split_on(pre, ',') == pv.push(cur));
        }
        if ch == ',' {
            let piece = String::from_str(s.substring_char(start, i));
            parts.push(piece);
            start = i + 1;
            i += 1;
            assert(parts@.map_values(|p: String| p@) =~= pv.push(cur));
            assert(s@.subrange(start as int, i as int) =~= Seq::<char>::empty());
            assert(split_on(next, ',') == pv.push(cur).push(Seq::empty()));
        } else {
            i += 1;
            assert(s@.subrange(start as int, i as int) =~= cur.push(ch));
            assert(split_on(next, ',') == pv.push(cur).update(pv.len() as int, cur.push(ch)));
            assert(pv.push(cur).update(pv.len() as int, cur.push(ch)) =~= pv.push(cur.push(ch)));
        }
    }
    let last = String::from_str(s.substring_char(start, n));
    parts.push(last);
    assert(s@.subrange(0, n as int) =~= s@);
    assert(parts@.map_values(|p: String| p@) =~= split_on(s@, ','));
    parts
}

/// The pieces between commas of the string at `key` in the package table,
/// none where there is no such string.
fn package_list(manifest: &str, key: &str) -> (r: Vec<String>)
    ensures
        r@.map_values(|p: String| p@) == match toml_table_string(manifest@, "package"@, key@) {
            Some(s) => split_on(s, ','),
            None => Seq::empty(),
        },
{
    match table_string(manifest, "package", key) {
        Some(s) => split_commas(s.as_str()),
        None => {
            let r: Vec<String> = Vec::new();
            assert(r@.map_values(|p: String| p@) =~= Seq::<Seq<char>>::empty());
            r
        },
    }
}

/// What a package manifest tells: the package's name, version, description
/// and repository, and its authors, keywords and categories where each is
/// written as one comma-separated string.
pub fn parse_cargo_info(manifest: &str) -> (r: CargoInfo)
    ensures
        opt_view(r.package_name) == toml_table_string(manifest@, "package"@, "name"@),
        opt_view(r.version) == toml_table_string(manifest@, "package"@, "version"@),
        opt_view(r.description) == toml_table_string(manifest@, "package"@, "description"@),
        opt_view(r.repository) == toml_table_string(manifest@, "package"@, "repository"@),
        r.authors@.map_values(|p: String| p@) == match toml_table_string(
            manifest@,
            "package"@,
            "authors"@,
        ) {
            Some(s) => split_on(s, ','),
            None => Seq::empty(),
        },
        r.keywords@.map_values(|p: String| p@) == match toml_table_string(
            manifest@,
            "package"@,
            "keywords"@,
        ) {
            Some(s) => split_on(s, ','),
            None => Seq::empty(),
        },
        r.categories@.map_values(|p: String| p@) == match toml_table_string(
            manifest@,
            "package"@,
            "categories"@,
        ) {
            Some(s) => split_on(s, ','),
            None => Seq::empty(),
        },
{
    CargoInfo {
        package_name: table_string(manifest, "package", "name"),
        version: table_string(manifest, "package", "version"),
        authors: package_list(manifest, "authors"),
        description: table_string(manifest, "package", "description"),
        repository: table_string(manifest, "package", "repository"),
        keywords: package_list(manifest, "keywords"),
        categories: package_list(manifest, "categories"),
    }
}

impl Cargo {
    /// The folder's path.
    pub closed spec fn spec_path(&self) -> Seq<char> {
        self.path@
    }

    /// Whether the folder has a package manifest.
    pub closed spec fn has_info(&self) -> bool {
        self.info is Some
    }

    /// The folder at `path`, with the text of its `Cargo.toml` where it has one.
    pub fn new(path: &str, manifest: Option<String>) -> (r: Self)
        ensures
            r.spec_path() == path@,
            r.has_info() == manifest is Some,
    {
        let info = match manifest {
            Some(text) => Some(parse_cargo_info(text.as_str())),
            None => None,
        };
        Cargo { path: String::from_str(path), info }
    }

    /// What the manifest tells, if there is one.
    pub fn info(&self) -> (r: Option<&CargoInfo>)
        ensures
            r is Some == self.has_info(),
    {
        self.info.as_ref()
    }

    /// The folder's path.
    pub fn path(&self) -> (r: &str)
        ensures
            r@ == self.spec_path(),
    {
        self.path.as_str()
    }
}

} // verus!
