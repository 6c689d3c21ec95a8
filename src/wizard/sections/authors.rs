use vstd::prelude::*;
use vstd::string::StringExecFns;
use crate::config::wtfm::{Author, WtfmConfig};
use crate::utils::helpers::{ValidationHelper, email_ok};
use crate::utils::messages::Messages;
use crate::wizard::prompt::{Answer, Notice, Prompt, choice_below, is_select, is_text, owned, views};
use crate::wizard::sections::{SectionKind, consistent, only_touches, same_fields, settle};

verus! {

/// Where the authors flow stands.
#[derive(Debug, PartialEq)]
pub enum AuthorsFlow {
    /// Authors are listed already: edit one, add one, remove one, skip or back.
    Menu,
    /// Choosing the author to edit; the user may cancel.
    PickToEdit,
    /// Asking for the new name of the author at `index`.
    EditName { index: usize },
    /// Asking for the new email of the author at `index`, the name given.
    EditEmail { index: usize, name: String },
    /// Asking for the name of a new author.
    NewName,
    /// Asking for the email of a new author, the name given.
    NewEmail { name: String },
    /// Choosing the author to remove; the user may cancel.
    PickToRemove,
}

/// Where the authors flow starts: at a new author on an empty list, at the
/// menu otherwise. A revisit starts at the same place.
pub open spec fn authors_entry(c: WtfmConfig) -> AuthorsFlow {
    if c.authors@.len() == 0 {
        AuthorsFlow::NewName
    } else {
        AuthorsFlow::Menu
    }
}

/// Starts the authors flow.
pub fn authors_begin(config: &WtfmConfig, notes: &mut Vec<Notice>) -> (r: AuthorsFlow)
    ensures
        r == authors_entry(*config),
{
    notes.push(Notice::Tips(owned(Messages::AUTHORS_TIPS)));
    if config.authors.len() == 0 {
        AuthorsFlow::NewName
    } else {
        AuthorsFlow::Menu
    }
}

/// How an author is shown in a list: `name <email>`.
pub open spec fn author_text(a: Author) -> Seq<char> {
    a.name@ + " <"@ + a.email@ + ">"@
}

/// How an author is shown in a list: `name <email>`.
pub fn author_line(a: &Author) -> (r: String)
    ensures
        r@ == author_text(*a),
{
    a.name.clone().concat(" <").concat(a.email.as_str()).concat(">")
}

fn author_lines(authors: &Vec<Author>) -> (r: Vec<String>)
    ensures
        r@.len() == authors@.len(),
        forall|i: int| 0 <= i < authors@.len() ==> #[trigger] r@[i]@ == author_text(authors@[i]),
{
    let mut r: Vec<String> = Vec::new();
    let mut i: usize = 0;
    while i < authors.len()
        invariant
            i <= authors@.len(),
            r@.len() == i,
            forall|m: int| 0 <= m < i ==> #[trigger] r@[m]@ == author_text(authors@[m]),
        decreases authors@.len() - i,
    {
        r.push(author_line(&authors[i]));
        i += 1;
    }
    r
}

/// A cancellable choice of one author, shown as `name <email>`.
pub open spec fn is_author_pick(p: Prompt, label: Seq<char>, authors: Seq<Author>) -> bool {
    p matches Prompt::SelectOrCancel { label: l, items } && l@ == label && items@.len()
        == authors.len() && forall|i: int|
        0 <= i < authors.len() ==> #[trigger] items@[i]@ == author_text(authors[i])
}

/// The text of a field of the author at `index`, empty where there is none.
pub open spec fn field_at(authors: Seq<Author>, index: usize, email: bool) -> Seq<char> {
    if index < authors.len() {
        if email {
            authors[index as int].email@
        } else {
            authors[index as int].name@
        }
    } else {
        Seq::empty()
    }
}

/// The question the authors flow asks in each state; editing an author
/// pre-fills the name and email with the current ones.
pub open spec fn authors_prompt_is(flow: AuthorsFlow, c: WtfmConfig, p: Prompt) -> bool {
    match flow {
        AuthorsFlow::Menu => is_select(
            p,
            "What would you like to do?"@,
            seq!["Edit authors"@, "Add author"@, "Remove author"@, "Skip"@, "Back"@],
            0,
        ),
        AuthorsFlow::PickToEdit => is_author_pick(p, "Select author to edit"@, c.authors@),
        AuthorsFlow::PickToRemove => is_author_pick(p, "Select author to remove"@, c.authors@),
        AuthorsFlow::EditName { index } => is_text(
            p,
            "Author name"@,
            field_at(c.authors@, index, false),
            false,
        ),
        AuthorsFlow::EditEmail { index, .. } => is_text(
            p,
            "Author email"@,
            field_at(c.authors@, index, true),
            false,
        ),
        AuthorsFlow::NewName => is_text(p, "Author name"@, Seq::empty(), false),
        AuthorsFlow::NewEmail { .. } => is_text(p, "Author email"@, Seq::empty(), false),
    }
}

/// The question the authors flow asks in `flow`.
pub fn authors_prompt(flow: &AuthorsFlow, config: &WtfmConfig) -> (r: Prompt)
    ensures
        authors_prompt_is(*flow, *config, r),
{
    match flow {
        AuthorsFlow::Menu => {
            let items = vec![
                owned("Edit authors"),
                owned("Add author"),
                owned("Remove author"),
                owned("Skip"),
                owned("Back"),
            ];
            assert(views(items@) =~= seq![
                "Edit authors"@,
                "Add author"@,
                "Remove author"@,
                "Skip"@,
                "Back"@,
            ]);
            Prompt::Select { label: owned("What would you like to do?"), items, start: 0 }
        },
        AuthorsFlow::PickToEdit => Prompt::SelectOrCancel {
            label: owned("Select author to edit"),
            items: author_lines(&config.authors),
        },
        AuthorsFlow::PickToRemove => Prompt::SelectOrCancel {
            label: owned("Select author to remove"),
            items: author_lines(&config.authors),
        },
        AuthorsFlow::EditName { index } => Prompt::Text {
            label: owned("Author name"),
            initial: if *index < config.authors.len() {
                config.authors[*index].name.clone()
            } else {
                String::new()
            },
            default: None,
            allow_empty: false,
        },
        AuthorsFlow::EditEmail { index, .. } => Prompt::Text {
            label: owned("Author email"),
            initial: if *index < config.authors.len() {
                config.authors[*index].email.clone()
            } else {
                String::new()
            },
            default: None,
            allow_empty: false,
        },
        AuthorsFlow::NewName => Prompt::Text {
            label: owned("Author name"),
            initial: String::new(),
            default: None,
            allow_empty: false,
        },
        AuthorsFlow::NewEmail { .. } => Prompt::Text {
            label: owned("Author email"),
            initial: String::new(),
            default: None,
            allow_empty: false,
        },
    }
}

/// Adds an author at the end of the list.
pub fn add_author(config: &mut WtfmConfig, author: Author)
    ensures
        final(config).authors@ == old(config).authors@.push(author),
        final(config).sections_status == old(config).sections_status,
        only_touches(SectionKind::Authors, *old(config), *final(config)),
{
    config.authors.push(author);
}

/// Replaces the author at `index`.
pub fn replace_author(config: &mut WtfmConfig, index: usize, author: Author)
    requires
        index < old(config).authors@.len(),
    ensures
        final(config).authors@ == old(config).authors@.update(index as int, author),
        final(config).sections_status == old(config).sections_status,
        only_touches(SectionKind::Authors, *old(config), *final(config)),
{
    config.authors.set(index, author);
}

/// Removes the author at `index`.
pub fn remove_author(config: &mut WtfmConfig, index: usize)
    requires
        index < old(config).authors@.len(),
    ensures
        final(config).authors@ == old(config).authors@.remove(index as int),
        final(config).sections_status == old(config).sections_status,
        only_touches(SectionKind::Authors, *old(config), *final(config)),
{
    config.authors.remove(index);
}

/// What one answer does in the authors flow: to the descriptor `before`,
/// giving `after`, and to the flow, giving `r`. An email of the wrong shape
/// is never stored: the question is asked again.
pub open spec fn authors_step_post(
    flow: AuthorsFlow,
    a: Answer,
    before: WtfmConfig,
    after: WtfmConfig,
    r: Option<AuthorsFlow>,
) -> bool {
    &&& only_touches(SectionKind::Authors, before, after)
    &&& consistent(SectionKind::Authors, after)
    &&& match flow {
        AuthorsFlow::Menu => same_fields(before, after) && r == (if a == Answer::Choice(0) {
            Some(AuthorsFlow::PickToEdit)
        } else if a == Answer::Choice(1) {
            Some(AuthorsFlow::NewName)
        } else if a == Answer::Choice(2) {
            Some(AuthorsFlow::PickToRemove)
        } else if a == Answer::Choice(3) || a == Answer::Choice(4) {
            None
        } else {
            Some(flow)
        }),
        AuthorsFlow::PickToEdit => same_fields(before, after) && r == (if a is Cancel {
            None
        } else if a is Choice && a->Choice_0 < before.authors@.len() {
            Some(AuthorsFlow::EditName { index: a->Choice_0 })
        } else {
            Some(flow)
        }),
        AuthorsFlow::EditName { index } => same_fields(before, after) && r == (if a is Text {
            Some(AuthorsFlow::EditEmail { index, name: a->Text_0 })
        } else {
            Some(flow)
        }),
        AuthorsFlow::EditEmail { index, name } => if a is Text && email_ok(a->Text_0@) {
            r is None && after.authors@ == if index < before.authors@.len() {
                before.authors@.update(index as int, Author { name, email: a->Text_0 })
            } else {
                before.authors@
            }
        } else {
            same_fields(before, after) && r == Some(flow)
        },
        AuthorsFlow::NewName => same_fields(before, after) && r == (if a is Text {
            Some(AuthorsFlow::NewEmail { name: a->Text_0 })
        } else {
            Some(flow)
        }),
        AuthorsFlow::NewEmail { name } => if a is Text && email_ok(a->Text_0@) {
            r is None && after.authors@ == before.authors@.push(
                Author { name, email: a->Text_0 },
            )
        } else {
            same_fields(before, after) && r == Some(flow)
        },
        AuthorsFlow::PickToRemove => if a is Choice && a->Choice_0 < before.authors@.len() {
            r is None && after.authors@ == before.authors@.remove(a->Choice_0 as int)
        } else {
            same_fields(before, after) && r == (if a is Cancel {
                None
            } else {
                Some(flow)
            })
        },
    }
}

fn authors_apply(
    flow: AuthorsFlow,
    config: &mut WtfmConfig,
    answer: Answer,
    notes: &mut Vec<Notice>,
) -> (r: Option<AuthorsFlow>)
    ensures
        authors_step_post(flow, answer, *old(config), *final(config), r),
{
    let r = match flow {
        AuthorsFlow::Menu => match choice_below(&answer, 5) {
            Some(0) => Some(AuthorsFlow::PickToEdit),
            Some(1) => Some(AuthorsFlow::NewName),
            Some(2) => Some(AuthorsFlow::PickToRemove),
            Some(_) => None,
            None => Some(AuthorsFlow::Menu),
        },
        AuthorsFlow::PickToEdit => match answer {
            Answer::Cancel => None,
            _ => match choice_below(&answer, config.authors.len()) {
                Some(i) => Some(AuthorsFlow::EditName { index: i }),
                None => Some(AuthorsFlow::PickToEdit),
            },
        },
        AuthorsFlow::EditName { index } => match answer {
            Answer::Text(name) => Some(AuthorsFlow::EditEmail { index, name }),
            _ => Some(AuthorsFlow::EditName { index }),
        },
        AuthorsFlow::EditEmail { index, name } => match answer {
            Answer::Text(email) => {
                if ValidationHelper::validate_email(email.as_str()).is_ok() {
                    if index < config.authors.len() {
                        replace_author(config, index, Author { name, email });
                    }
                    None
                } else {
                    notes.push(Notice::Error(owned(Messages::ERR_INVALID_EMAIL)));
                    Some(AuthorsFlow::EditEmail { index, name })
                }
            },
            _ => Some(AuthorsFlow::EditEmail { index, name }),
        },
        AuthorsFlow::NewName => match answer {
            Answer::Text(name) => Some(AuthorsFlow::NewEmail { name }),
            _ => Some(AuthorsFlow::NewName),
        },
        AuthorsFlow::NewEmail { name } => match answer {
            Answer::Text(email) => {
                if ValidationHelper::validate_email(email.as_str()).is_ok() {
                    add_author(config, Author { name, email });
                    None
                } else {
                    notes.push(Notice::Error(owned(Messages::ERR_INVALID_EMAIL)));
                    Some(AuthorsFlow::NewEmail { name })
                }
            },
            _ => Some(AuthorsFlow::NewEmail { name }),
        },
        AuthorsFlow::PickToRemove => match answer {
            Answer::Cancel => None,
            _ => match choice_below(&answer, config.authors.len()) {
                Some(i) => {
                    remove_author(config, i);
                    None
                },
                None => Some(AuthorsFlow::PickToRemove),
            },
        },
    };
    settle(SectionKind::Authors, config);
    r
}

/// Takes the user's answer in `flow`: applies it to the descriptor and
/// returns where the flow goes next, or `None` when it is over. An email of
/// the wrong shape is refused with an error notice and asked again; an
/// answer of the wrong kind is asked again. Afterwards the section's status
/// is `Configured` exactly when the list holds an author.
pub fn authors_step(
    flow: AuthorsFlow,
    config: &mut WtfmConfig,
    answer: Answer,
    notes: &mut Vec<Notice>,
) -> (r: Option<AuthorsFlow>)
    ensures
        authors_step_post(flow, answer, *old(config), *final(config), r),
{
    authors_apply(flow, config, answer, notes)
}

} // verus!
