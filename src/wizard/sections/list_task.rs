use vstd::prelude::*;
use crate::utils::helpers::{blank, is_blank};
use crate::utils::messages::Messages;
use crate::wizard::lists::{index_set, pick_next, remove_selected, without_indices};
use crate::wizard::prompt::{
    Answer, Notice, Prompt, all_below, choice_below, normalize_choices, owned, views,
};

verus! {

/// The free-text lists that the features and installation sections edit.
#[derive(Clone, Copy, Debug, PartialEq, Eq, Structural)]
pub enum ListTarget {
    Features,
    Prerequisites,
    Steps,
}

/// One editing task on a list of texts, in progress.
#[derive(Debug, PartialEq)]
pub enum ListTask {
    /// Adding items at the end, one per answer, until a blank line.
    Append,
    /// Collecting a new list until a blank line; it then replaces the old one.
    Replace { items: Vec<String> },
    /// Choosing items to remove, with a confirmation after if `confirm`.
    PickToRemove { confirm: bool },
    /// Asking whether to remove the items at `selected`, ascending.
    ConfirmRemove { selected: Vec<usize> },
    /// Choosing the item to rewrite; the user may cancel if `cancellable`.
    PickToRewrite { cancellable: bool },
    /// Asking for the new text of the item at `index`.
    Rewrite { index: usize },
    /// Reordering: `placed` holds the items in their new order so far, `pool`
    /// those not placed yet. If `cancellable`, cancelling keeps the old order.
    Reorder { pool: Vec<String>, placed: Vec<String>, cancellable: bool },
}

/// A copy of a list of texts.
pub fn copy_texts(v: &Vec<String>) -> (r: Vec<String>)
    ensures
        r@ == v@,
{
    let mut r: Vec<String> = Vec::new();
    let mut i: usize = 0;
    while i < v.len()
        invariant
            i <= v@.len(),
            r@ == v@.subrange(0, i as int),
        decreases v@.len() - i,
    {
        r.push(v[i].clone());
        i += 1;
        assert(r@ =~= v@.subrange(0, i as int));
    }
    assert(v@.subrange(0, v@.len() as int) =~= v@);
    r
}

/// Starts reordering `list` by picking its items one at a time.
pub fn start_reorder(list: &Vec<String>, cancellable: bool) -> (r: ListTask)
    ensures
        r matches ListTask::Reorder { pool, placed, cancellable: c } && pool@ == list@
            && placed@.len() == 0 && c == cancellable,
{
    ListTask::Reorder { pool: copy_texts(list), placed: Vec::new(), cancellable }
}

/// The label of one item of a list.
pub open spec fn item_label(t: ListTarget) -> Seq<char> {
    match t {
        ListTarget::Features => "Feature"@,
        ListTarget::Prerequisites => "Prerequisite"@,
        ListTarget::Steps => "Step"@,
    }
}

/// The question that asks which items to remove.
pub open spec fn remove_label(t: ListTarget) -> Seq<char> {
    match t {
        ListTarget::Features => "Select features to remove"@,
        ListTarget::Prerequisites => "Select prerequisites to remove"@,
        ListTarget::Steps => "Select steps to remove"@,
    }
}

/// The question that asks which item to rewrite.
pub open spec fn rewrite_label(t: ListTarget) -> Seq<char> {
    match t {
        ListTarget::Features => "Select feature to edit"@,
        ListTarget::Prerequisites => "Select prerequisite to edit"@,
        ListTarget::Steps => "Select step to edit"@,
    }
}

/// The question that asks for the next item of a new order.
pub open spec fn reorder_label(t: ListTarget) -> Seq<char> {
    match t {
        ListTarget::Features => "Select next feature"@,
        ListTarget::Prerequisites => "Select next prerequisite"@,
        ListTarget::Steps => "Select next step"@,
    }
}

fn item_label_text(t: ListTarget) -> (r: &'static str)
    ensures
        r@ == item_label(t),
{
    match t {
        ListTarget::Features => "Feature",
        ListTarget::Prerequisites => "Prerequisite",
        ListTarget::Steps => "Step",
    }
}

fn remove_label_text(t: ListTarget) -> (r: &'static str)
    ensures
        r@ == remove_label(t),
{
    match t {
        ListTarget::Features => "Select features to remove",
        ListTarget::Prerequisites => "Select prerequisites to remove",
        ListTarget::Steps => "Select steps to remove",
    }
}

fn rewrite_label_text(t: ListTarget) -> (r: &'static str)
    ensures
        r@ == rewrite_label(t),
{
    match t {
        ListTarget::Features => "Select feature to edit",
        ListTarget::Prerequisites => "Select prerequisite to edit",
        ListTarget::Steps => "Select step to edit",
    }
}

fn reorder_label_text(t: ListTarget) -> (r: &'static str)
    ensures
        r@ == reorder_label(t),
{
    match t {
        ListTarget::Features => "Select next feature",
        ListTarget::Prerequisites => "Select next prerequisite",
        ListTarget::Steps => "Select next step",
    }
}

/// `n` choices, none of them checked.
pub fn unchecked(n: usize) -> (r: Vec<bool>)
    ensures
        r@.len() == n,
        forall|i: int| 0 <= i < n ==> !r@[i],
{
    let mut r: Vec<bool> = Vec::new();
    while r.len() < n
        invariant
            r@.len() <= n,
            forall|i: int| 0 <= i < r@.len() ==> !r@[i],
        decreases n - r@.len(),
    {
        r.push(false);
    }
    r
}

/// A choice of one of `items`, cancellable or not.
pub open spec fn is_pick(p: Prompt, label: Seq<char>, items: Seq<String>, cancellable: bool) -> bool {
    if cancellable {
        p matches Prompt::SelectOrCancel { label: l, items: i } && l@ == label && i@ == items
    } else {
        p matches Prompt::Select { label: l, items: i, start } && l@ == label && i@ == items
            && start == 0
    }
}

/// The question a list task asks about `list`: a line of free text to add
/// or collect items and to rewrite one (pre-filled with it), a multiple
/// choice over the list to remove items, a yes/no confirmation, and a choice
/// over the list to rewrite, or over the items not yet placed to reorder.
pub open spec fn task_prompt_is(task: ListTask, target: ListTarget, list: Seq<String>, p: Prompt) -> bool {
    match task {
        ListTask::Append | ListTask::Replace { .. } => p matches Prompt::Text {
            label,
            initial,
            default,
            allow_empty,
        } && label@ == item_label(target) && initial@.len() == 0 && default is None && allow_empty,
        ListTask::PickToRemove { .. } => p matches Prompt::MultiSelect { label, items, checked }
            && label@ == remove_label(target) && items@ == list && checked@.len() == list.len()
            && forall|i: int| 0 <= i < list.len() ==> !checked@[i],
        ListTask::ConfirmRemove { .. } => p matches Prompt::Select { label, items, start }
            && label@ == "Are you sure you want to delete this?"@ && views(items@) == seq![
            "Yes"@,
            "No"@,
        ] && start == 1,
        ListTask::PickToRewrite { cancellable } => is_pick(p, rewrite_label(target), list, cancellable),
        ListTask::Rewrite { index } => p matches Prompt::Text { label, initial, default, allow_empty }
            && label@ == item_label(target) && (index < list.len() ==> initial == list[index as int])
            && default is None && allow_empty,
        ListTask::Reorder { pool, cancellable, .. } => is_pick(
            p,
            reorder_label(target),
            pool@,
            cancellable,
        ),
    }
}

/// The question a list task asks.
pub fn task_prompt(task: &ListTask, target: ListTarget, list: &Vec<String>) -> (r: Prompt)
    ensures
        task_prompt_is(*task, target, list@, r),
{
    match task {
        ListTask::Append | ListTask::Replace { .. } => Prompt::Text {
            label: owned(item_label_text(target)),
            initial: String::new(),
            default: None,
            allow_empty: true,
        },
        ListTask::PickToRemove { .. } => Prompt::MultiSelect {
            label: owned(remove_label_text(target)),
            items: copy_texts(list),
            checked: unchecked(list.len()),
        },
        ListTask::ConfirmRemove { .. } => {
            let items = vec![owned("Yes"), owned("No")];
            assert(views(items@) =~= seq!["Yes"@, "No"@]);
            Prompt::Select { label: owned(Messages::CONFIRM_DELETE), items, start: 1 }
        },
        ListTask::PickToRewrite { cancellable } => {
            if *cancellable {
                Prompt::SelectOrCancel { label: owned(rewrite_label_text(target)), items: copy_texts(list) }
            } else {
                Prompt::Select { label: owned(rewrite_label_text(target)), items: copy_texts(list), start: 0 }
            }
        },
        ListTask::Rewrite { index } => Prompt::Text {
            label: owned(item_label_text(target)),
            initial: if *index < list.len() {
                list[*index].clone()
            } else {
                String::new()
            },
            default: None,
            allow_empty: true,
        },
        ListTask::Reorder { pool, cancellable, .. } => {
            if *cancellable {
                Prompt::SelectOrCancel { label: owned(reorder_label_text(target)), items: copy_texts(pool) }
            } else {
                Prompt::Select { label: owned(reorder_label_text(target)), items: copy_texts(pool), start: 0 }
            }
        },
    }
}

/// The list after a task takes an answer. Items are added, removed,
/// rewritten or put in their new order only where the answer fits; any
/// other answer leaves the list as it was. A multiple choice counts as the
/// set of positions it names.
pub open spec fn list_after(task: ListTask, a: Answer, before: Seq<String>) -> Seq<String> {
    match task {
        ListTask::Append => match a {
            Answer::Text(t) => if is_blank(t@) {
                before
            } else {
                before.push(t)
            },
            _ => before,
        },
        ListTask::Replace { items } => match a {
            Answer::Text(t) => if is_blank(t@) {
                items@
            } else {
                before
            },
            _ => before,
        },
        ListTask::PickToRemove { confirm } => match a {
            Answer::Choices(sel) => if !confirm && all_below(sel@, before.len() as int) {
                without_indices(before, index_set(sel@))
            } else {
                before
            },
            _ => before,
        },
        ListTask::ConfirmRemove { selected } => if a == Answer::Choice(0) && all_below(
            selected@,
            before.len() as int,
        ) {
            without_indices(before, index_set(selected@))
        } else {
            before
        },
        ListTask::PickToRewrite { .. } => before,
        ListTask::Rewrite { index } => match a {
            Answer::Text(t) => if index < before.len() && !is_blank(t@) {
                before.update(index as int, t)
            } else {
                before
            },
            _ => before,
        },
        ListTask::Reorder { pool, placed, .. } => match a {
            Answer::Choice(i) => if i < pool@.len() && pool@.len() == 1 {
                placed@.push(pool@[i as int])
            } else {
                before
            },
            _ => before,
        },
    }
}

/// Where a list task goes after an answer, given the list before it:
/// `None` when the task is over, the task again when the answer does not
/// fit. A removal with confirmation moves to the confirmation with the
/// chosen positions, each once and ascending; a pick while reordering moves
/// the item from the pool to the end of the placed items.
pub open spec fn task_next(task: ListTask, a: Answer, before: Seq<String>, r: Option<ListTask>) -> bool {
    match task {
        ListTask::Append => r == (if a is Text && is_blank(a->Text_0@) {
            None
        } else {
            Some(ListTask::Append)
        }),
        ListTask::Replace { items } => match a {
            Answer::Text(t) => if is_blank(t@) {
                r is None
            } else {
                r matches Some(ListTask::Replace { items: next }) && next@ == items@.push(t)
            },
            _ => r == Some(task),
        },
        ListTask::PickToRemove { confirm } => match a {
            Answer::Choices(sel) => if !all_below(sel@, before.len() as int) {
                r == Some(task)
            } else if !confirm || sel@.len() == 0 {
                r is None
            } else {
                r matches Some(ListTask::ConfirmRemove { selected }) && index_set(selected@)
                    == index_set(sel@) && all_below(selected@, before.len() as int)
            },
            _ => r == Some(task),
        },
        ListTask::ConfirmRemove { .. } => r == (if a == Answer::Choice(0) || a == Answer::Choice(1) {
            None
        } else {
            Some(task)
        }),
        ListTask::PickToRewrite { cancellable } => r == (if a is Choice && a->Choice_0 < before.len() {
            Some(ListTask::Rewrite { index: a->Choice_0 })
        } else if a is Cancel && cancellable {
            None
        } else {
            Some(task)
        }),
        ListTask::Rewrite { .. } => r == (if a is Text {
            None
        } else {
            Some(task)
        }),
        ListTask::Reorder { pool, placed, cancellable } => if a is Choice && a->Choice_0 < pool@.len() {
            if pool@.len() == 1 {
                r is None
            } else {
                r matches Some(ListTask::Reorder { pool: p2, placed: q2, cancellable: c2 }) && p2@
                    == pool@.remove(a->Choice_0 as int) && q2@ == placed@.push(
                    pool@[a->Choice_0 as int],
                ) && c2 == cancellable
            }
        } else if a is Cancel && cancellable {
            r is None
        } else {
            r == Some(task)
        },
    }
}

/// Takes the user's answer to a list task. Returns the task as it goes on,
/// or `None` when it is over. An answer of the wrong kind is asked again.
pub fn task_step(
    task: ListTask,
    list: &mut Vec<String>,
    answer: Answer,
    notes: &mut Vec<Notice>,
) -> (r: Option<ListTask>)
    ensures
        final(list)@ == list_after(task, answer, old(list)@),
        task_next(task, answer, old(list)@, r),
        (task is Reorder && answer is Choice && answer->Choice_0 < task->Reorder_pool@.len()
            && task->Reorder_pool@.len() == 1) ==> (final(list)@.to_multiset() == (
        task->Reorder_placed@ + task->Reorder_pool@).to_multiset()),
        (r is Some && r->0 is Reorder) ==> (task is Reorder && (r->0->Reorder_placed@
            + r->0->Reorder_pool@).to_multiset() == (task->Reorder_placed@
            + task->Reorder_pool@).to_multiset()),
{
    match task {
        ListTask::Append => match answer {
            Answer::Text(t) => {
                if blank(t.as_str()) {
                    None
                } else {
                    list.push(t);
                    Some(ListTask::Append)
                }
            },
            _ => Some(ListTask::Append),
        },
        ListTask::Replace { items } => match answer {
            Answer::Text(t) => {
                if blank(t.as_str()) {
                    *list = items;
                    None
                } else {
                    let mut items = items;
                    items.push(t);
                    Some(ListTask::Replace { items })
                }
            },
            _ => Some(ListTask::Replace { items }),
        },
        ListTask::PickToRemove { confirm } => match answer {
            Answer::Choices(sel) => match normalize_choices(&sel, list.len()) {
                None => Some(ListTask::PickToRemove { confirm }),
                Some(norm) => {
                    if !confirm {
                        remove_selected(list, &norm);
                        None
                    } else if sel.len() == 0 {
                        None
                    } else {
                        assert(all_below(norm@, old(list)@.len() as int));
                        Some(ListTask::ConfirmRemove { selected: norm })
                    }
                },
            },
            _ => Some(ListTask::PickToRemove { confirm }),
        },
        ListTask::ConfirmRemove { selected } => match choice_below(&answer, 2) {
            Some(0) => {
                match normalize_choices(&selected, list.len()) {
                    Some(norm) => {
                        remove_selected(list, &norm);
                        notes.push(Notice::Success(owned("Items removed successfully")));
                    },
                    None => {},
                }
                None
            },
            Some(_) => None,
            None => Some(ListTask::ConfirmRemove { selected }),
        },
        ListTask::PickToRewrite { cancellable } => match answer {
            Answer::Choice(i) => {
                if i < list.len() {
                    Some(ListTask::Rewrite { index: i })
                } else {
                    Some(ListTask::PickToRewrite { cancellable })
                }
            },
            Answer::Cancel => {
                if cancellable {
                    None
                } else {
                    Some(ListTask::PickToRewrite { cancellable })
                }
            },
            _ => Some(ListTask::PickToRewrite { cancellable }),
        },
        ListTask::Rewrite { index } => match answer {
            Answer::Text(t) => {
                if index < list.len() && !blank(t.as_str()) {
                    list.set(index, t);
                    notes.push(Notice::Success(owned("Item updated successfully")));
                }
                None
            },
            _ => Some(ListTask::Rewrite { index }),
        },
        ListTask::Reorder { pool, placed, cancellable } => match answer {
            Answer::Choice(i) => {
                if i < pool.len() {
                    let mut pool = pool;
                    let mut placed = placed;
                    pick_next(&mut pool, &mut placed, i);
                    if pool.len() == 0 {
                        assert(placed@ + pool@ =~= placed@);
                        *list = placed;
                        notes.push(Notice::Success(owned("Items reordered successfully")));
                        None
                    } else {
                        Some(ListTask::Reorder { pool, placed, cancellable })
                    }
                } else {
                    Some(ListTask::Reorder { pool, placed, cancellable })
                }
            },
            Answer::Cancel => {
                if cancellable {
                    None
                } else {
                    Some(ListTask::Reorder { pool, placed, cancellable })
                }
            },
            _ => Some(ListTask::Reorder { pool, placed, cancellable }),
        },
    }
}

} // verus!
