//! The interactive controls a message can carry, and how a set of them is
//! turned off once a conversation is over.

use vstd::prelude::*;

verus! {

/// The most choices one menu or list of suggestions can offer.
pub const MAX_CHOICES: usize = 25;

/// How a button is drawn.
#[derive(Clone, Copy, Debug, PartialEq, Eq, Hash, Structural)]
pub enum ButtonStyle {
    Primary,
    Secondary,
    Success,
    Danger,
    /// A style this library does not name, kept by its wire number.
    Other(u8),
}

/// What pressing a button does.
#[derive(Clone, Debug, PartialEq, Eq)]
pub enum ButtonTarget {
    /// Opens an address.
    Link(String),
    /// Offers a purchase of the given item.
    Premium(u64),
    /// Sends an interaction that carries `id` back.
    Custom { id: String, style: ButtonStyle },
}

/// A button.
#[derive(Clone, Debug, PartialEq, Eq)]
pub struct Button {
    pub target: ButtonTarget,
    pub label: Option<String>,
    /// The emoji in its textual form.
    pub emoji: Option<String>,
    pub disabled: bool,
}

/// One choice of a text select menu.
#[derive(Clone, Debug, PartialEq, Eq)]
pub struct SelectOption {
    /// What the user sees.
    pub label: String,
    /// What the interaction carries back when the choice is made.
    pub value: String,
}

/// What a select menu offers to choose from.
#[derive(Clone, Debug, PartialEq, Eq)]
pub enum SelectKind {
    Text(Vec<SelectOption>),
    User,
    Role,
    Mentionable,
    Channel,
}

/// A select menu.
#[derive(Clone, Debug, PartialEq, Eq)]
pub struct SelectMenu {
    pub id: String,
    pub kind: SelectKind,
    pub placeholder: Option<String>,
    pub disabled: bool,
}

/// One row of controls: a group of buttons or a single select menu.
#[derive(Clone, Debug, PartialEq, Eq)]
pub enum ComponentRow {
    Buttons(Vec<Button>),
    Select(SelectMenu),
}

impl Button {
    /// The same button, turned off.
    pub open spec fn turned_off(self) -> Button {
        Button { disabled: true, ..self }
    }
}

impl SelectMenu {
    /// The same menu, turned off.
    pub open spec fn turned_off(self) -> SelectMenu {
        SelectMenu { disabled: true, ..self }
    }
}

/// `after` is `before` with every control in it turned off and nothing else
/// changed.
pub open spec fn turned_off_row(before: ComponentRow, after: ComponentRow) -> bool {
    match before {
        ComponentRow::Buttons(a) => match after {
            ComponentRow::Buttons(b) => b@.len() == a@.len() && forall|j: int|
                0 <= j < a@.len() ==> #[trigger] b@[j] == a@[j].turned_off(),
            ComponentRow::Select(_) => false,
        },
        ComponentRow::Select(s) => after == ComponentRow::Select(s.turned_off()),
    }
}

/// `after` holds the rows of `before`, in order, each turned off.
pub open spec fn turned_off_rows(before: Seq<ComponentRow>, after: Seq<ComponentRow>) -> bool {
    &&& after.len() == before.len()
    &&& forall|i: int| 0 <= i < before.len() ==> turned_off_row(before[i], #[trigger] after[i])
}

/// The buttons of `buttons`, in order, each turned off.
fn disable_buttons(buttons: Vec<Button>) -> (r: Vec<Button>)
    ensures
        r@.len() == buttons@.len(),
        forall|j: int| 0 <= j < buttons@.len() ==> #[trigger] r@[j] == buttons@[j].turned_off(),
{
    let ghost before = buttons@;
    let mut rest = buttons;
    let mut out: Vec<Button> = Vec::new();
    while rest.len() > 0
        invariant
            out@.len() + rest@.len() == before.len(),
            rest@ == before.subrange(out@.len() as int, before.len() as int),
            forall|j: int| 0 <= j < out@.len() ==> #[trigger] out@[j] == before[j].turned_off(),
        decreases rest@.len(),
    {
        let b = rest.remove(0);
        out.push(Button { disabled: true, ..b });
    }
    out
}

/// Every control of `rows` turned off, with labels, placeholders, choices and
/// styles kept, so that a stale message can no longer be acted on.
pub fn disable_rows(rows: Vec<ComponentRow>) -> (r: Vec<ComponentRow>)
    ensures
        turned_off_rows(rows@, r@),
{
    let ghost before = rows@;
    let mut rest = rows;
    let mut out: Vec<ComponentRow> = Vec::new();
    while rest.len() > 0
        invariant
            out@.len() + rest@.len() == before.len(),
            rest@ == before.subrange(out@.len() as int, before.len() as int),
            forall|i: int| 0 <= i < out@.len() ==> turned_off_row(before[i], #[trigger] out@[i]),
        decreases rest@.len(),
    {
        let row = rest.remove(0);
        let off = match row {
            ComponentRow::Buttons(buttons) => ComponentRow::Buttons(disable_buttons(buttons)),
            ComponentRow::Select(menu) => ComponentRow::Select(SelectMenu { disabled: true, ..menu }),
        };
        out.push(off);
    }
    out
}

} // verus!
