use vstd::prelude::*;
use vstd::string::StringExecFns;
use crate::wizard::lists::{ascending_below, index_set, positions_from};

verus! {

/// A question the wizard asks the user.
#[derive(Debug, PartialEq)]
pub enum Prompt {
    /// A line of free text, pre-filled with `initial`. An empty answer stands
    /// for `default` where one is given; `allow_empty` accepts an empty line
    /// as an answer.
    Text { label: String, initial: String, default: Option<String>, allow_empty: bool },
    /// A choice of exactly one of `items`, with the cursor first on `start`.
    Select { label: String, items: Vec<String>, start: usize },
    /// A choice of one of `items` that the user may cancel.
    SelectOrCancel { label: String, items: Vec<String> },
    /// A choice of any number of `items`; `checked` marks those chosen at first.
    MultiSelect { label: String, items: Vec<String>, checked: Vec<bool> },
}

/// What the user answered to a prompt.
#[derive(Debug, PartialEq)]
pub enum Answer {
    Text(String),
    Choice(usize),
    Cancel,
    /// Positions chosen in a multiple choice, in any order.
    Choices(Vec<usize>),
}

/// Something to show the user alongside the next prompt.
#[derive(Debug, PartialEq)]
pub enum Notice {
    Tips(String),
    Header(String),
    Success(String),
    Warning(String),
    Error(String),
    Line(String),
}

/// An owned copy of a text.
pub fn owned(s: &str) -> (r: String)
    ensures
        r@ == s@,
{
    String::from_str(s)
}

/// The position chosen by `a`, where `a` is a single choice below `n`.
pub fn choice_below(a: &Answer, n: usize) -> (r: Option<usize>)
    ensures
        r == (if a is Choice && a->Choice_0 < n {
            Some(a->Choice_0)
        } else {
            None
        }),
{
    match a {
        Answer::Choice(i) => {
            if *i < n {
                Some(*i)
            } else {
                None
            }
        },
        _ => None,
    }
}

/// The texts of a list of strings.
pub open spec fn views(s: Seq<String>) -> Seq<Seq<char>> {
    s.map_values(|x: String| x@)
}

/// `p` offers exactly one of `items`, under `label`, with the cursor at `start`.
pub open spec fn is_select(p: Prompt, label: Seq<char>, items: Seq<Seq<char>>, start: usize) -> bool {
    p matches Prompt::Select { label: l, items: i, start: s } && l@ == label && views(i@) == items
        && s == start
}

/// `p` asks for a line of text under `label`, pre-filled with `initial`,
/// with no default.
pub open spec fn is_text(p: Prompt, label: Seq<char>, initial: Seq<char>, allow_empty: bool) -> bool {
    p matches Prompt::Text { label: l, initial: i, default, allow_empty: e } && l@ == label && i@
        == initial && default is None && e == allow_empty
}

/// Every position in `sel` is below `n`.
pub open spec fn all_below(sel: Seq<usize>, n: int) -> bool {
    forall|i: int| 0 <= i < sel.len() ==> sel[i] < n
}

/// The positions chosen in `sel`, each once and in ascending order, where
/// every one of them is below `n`: a multiple choice is a set of positions,
/// whatever order and repetitions it comes in.
pub fn normalize_choices(sel: &Vec<usize>, n: usize) -> (r: Option<Vec<usize>>)
    ensures
        r is Some <==> all_below(sel@, n as int),
        r is Some ==> ascending_below(r->0@, n as int) && index_set(r->0@) == index_set(sel@),
{
    let mut mark: Vec<bool> = Vec::new();
    while mark.len() < n
        invariant
            mark@.len() <= n,
            forall|p: int| 0 <= p < mark@.len() ==> !mark@[p],
        decreases n - mark@.len(),
    {
        mark.push(false);
    }
    let mut j: usize = 0;
    while j < sel.len()
        invariant
            mark@.len() == n,
            j <= sel@.len(),
            forall|m: int| 0 <= m < j ==> sel@[m] < n,
            forall|p: int|
                0 <= p < n ==> (mark@[p] <==> exists|m: int| 0 <= m < j && #[trigger] sel@[m] as int == p),
        decreases sel@.len() - j,
    {
        if sel[j] >= n {
            return None;
        }
        let ghost old_mark = mark@;
        mark.set(sel[j], true);
        assert forall|p: int| 0 <= p < n implies (mark@[p] <==> exists|m: int|
            0 <= m < j + 1 && #[trigger] sel@[m] as int == p) by {
            if p == sel@[j as int] as int {
                assert(sel@[j as int] as int == p);
            } else {
                assert(mark@[p] == old_mark[p]);
                if exists|m: int| 0 <= m < j + 1 && #[trigger] sel@[m] as int == p {
                    let m = choose|m: int| 0 <= m < j + 1 && #[trigger] sel@[m] as int == p;
                    assert(m < j);
                }
            }
        }
        j += 1;
    }
    let mut r: Vec<usize> = Vec::new();
    let mut i: usize = 0;
    while i < n
        invariant
            mark@.len() == n,
            i <= n,
            forall|m: int| 0 <= m < sel@.len() ==> sel@[m] < n,
            forall|p: int|
                0 <= p < n ==> (mark@[p] <==> exists|m: int| 0 <= m < sel@.len() && #[trigger] sel@[m] as int == p),
            forall|m: int| 0 <= m < r@.len() ==> r@[m] < i,
            forall|a: int, b: int| 0 <= a < b < r@.len() ==> r@[a] < r@[b],
            forall|p: int|
                (exists|m: int| 0 <= m < r@.len() && #[trigger] r@[m] as int == p) <==> (0 <= p < i
                    && mark@[p]),
        decreases n - i,
    {
        if mark[i] {
            let ghost old_r = r@;
            r.push(i);
            assert forall|p: int| (exists|m: int| 0 <= m < r@.len() && #[trigger] r@[m] as int == p)
                <==> (0 <= p < i + 1 && mark@[p]) by {
                if p == i as int {
                    assert(r@[old_r.len() as int] as int == p);
                } else if exists|m: int| 0 <= m < r@.len() && #[trigger] r@[m] as int == p {
                    let m = choose|m: int| 0 <= m < r@.len() && #[trigger] r@[m] as int == p;
                    assert(m < old_r.len());
                    assert(old_r[m] as int == p);
                } else if 0 <= p < i && mark@[p] {
                    let m = choose|m: int| 0 <= m < old_r.len() && #[trigger] old_r[m] as int == p;
                    assert(r@[m] as int == p);
                }
            }
        }
        i += 1;
    }
    assert forall|p: int| index_set(r@).contains(p) <==> index_set(sel@).contains(p) by {
        assert(index_set(r@).contains(p) == exists|m: int|
            0 <= m < r@.len() && #[trigger] r@[m] as int == p);
        assert(index_set(sel@).contains(p) == exists|m: int|
            0 <= m < sel@.len() && #[trigger] sel@[m] as int == p);
        if index_set(sel@).contains(p) {
            let m = choose|m: int| 0 <= m < sel@.len() && #[trigger] sel@[m] as int == p;
            assert(0 <= p < n);
            assert(mark@[p]);
        }
        if index_set(r@).contains(p) {
            assert(0 <= p < n && mark@[p]);
        }
    }
    assert(index_set(r@) =~= index_set(sel@));
    Some(r)
}

} // verus!
