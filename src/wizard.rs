//! The colour conversation: after the form, the user pages through the
//! catalogue and picks a colour, or skips, one interaction at a time.

use vstd::prelude::*;

use crate::artifact::{
    text_of, text_validity, validate, validity, Artifact, Failure, ProtocolError,
};
use crate::catalog::{
    color_with_key, find_key, lemma_keys_distinct, lemma_rank_injective, ColorKey, CATALOG_LEN,
};
use crate::components::{
    disable_rows, turned_off_row, turned_off_rows, Button, ButtonStyle, ButtonTarget,
    ComponentRow, SelectKind, SelectMenu, SelectOption, MAX_CHOICES,
};
use crate::form::{collect_form, description_id, submitted_text, title_id, FormEvent};
use crate::text::same_text;

verus! {

/// Which part of the catalogue the menu offers.
#[derive(Clone, Copy, Debug, PartialEq, Eq, Hash, Structural)]
pub enum Screen {
    /// The first page of colours.
    InitialColors,
    /// The colours that did not fit on the first page.
    MoreColors,
}

/// The id of the colour menu.
pub open spec fn select_id() -> Seq<char> {
    "color_select"@
}

/// The id of the button that leads to the second page.
pub open spec fn more_colors_id() -> Seq<char> {
    "more_colors_button"@
}

/// The id of the button that leads back to the first page.
pub open spec fn initial_colors_id() -> Seq<char> {
    "initial_colors_button"@
}

/// The id of the button that ends the conversation without a colour.
pub open spec fn skip_id() -> Seq<char> {
    "skip_button"@
}

impl Screen {
    /// Position in the catalogue of the first colour offered.
    pub open spec fn first(self) -> int {
        match self {
            Screen::InitialColors => 0,
            Screen::MoreColors => MAX_CHOICES as int,
        }
    }

    /// Position in the catalogue just past the last colour offered.
    pub open spec fn end(self) -> int {
        match self {
            Screen::InitialColors => MAX_CHOICES as int,
            Screen::MoreColors => CATALOG_LEN as int,
        }
    }

    /// The other page.
    pub open spec fn other(self) -> Screen {
        match self {
            Screen::InitialColors => Screen::MoreColors,
            Screen::MoreColors => Screen::InitialColors,
        }
    }

    /// The id of the button that turns to the other page.
    pub open spec fn toggle_id(self) -> Seq<char> {
        match self {
            Screen::InitialColors => more_colors_id(),
            Screen::MoreColors => initial_colors_id(),
        }
    }

    /// The label of the button that turns to the other page.
    pub open spec fn toggle_label(self) -> Seq<char> {
        match self {
            Screen::InitialColors => "More Colors"@,
            Screen::MoreColors => "Initial Colors"@,
        }
    }

    /// Whether a control with this id is on the screen.
    pub open spec fn shows_id(self, id: Seq<char>) -> bool {
        id == select_id() || id == skip_id() || id == self.toggle_id()
    }

    /// Whether `e` comes from a button or a menu that is not on the screen.
    pub open spec fn misses(self, e: WizardEvent) -> bool {
        e matches WizardEvent::Component(c) && c.kind != ComponentKind::Other && !self.shows_id(
            c.component_id@,
        )
    }

    /// The range of catalogue positions offered.
    pub fn bounds(self) -> (r: (usize, usize))
        ensures
            r.0 == self.first(),
            r.1 == self.end(),
            r.0 < r.1 <= CATALOG_LEN,
    {
        match self {
            Screen::InitialColors => (0, MAX_CHOICES),
            Screen::MoreColors => (MAX_CHOICES, CATALOG_LEN),
        }
    }
}

/// The kind of control an interaction came from.
#[derive(Clone, Copy, Debug, PartialEq, Eq, Hash, Structural)]
pub enum ComponentKind {
    Button,
    StringSelect,
    /// Any other kind of control.
    Other,
}

/// A user's action on a control of the prompt.
#[derive(Clone, Debug, PartialEq, Eq)]
pub struct ComponentEvent {
    pub component_id: String,
    pub kind: ComponentKind,
    /// The chosen values, for a select menu.
    pub values: Vec<String>,
}

/// What the conversation waits for at each step.
#[derive(Clone, Debug, PartialEq, Eq)]
pub enum WizardEvent {
    Component(ComponentEvent),
    /// Nothing came within the wait.
    TimedOut,
}

/// What one interaction means on a screen.
#[derive(Clone, Debug, PartialEq, Eq)]
pub enum Decision {
    /// Turn to the given page.
    Show(Screen),
    /// Take the given colour and finish.
    Choose(ColorKey),
    /// Finish without a colour.
    Skip,
    /// Turn the controls off and give up.
    Abort(ProtocolError),
}

/// What the interaction `e` means on `screen`. A selection may name any colour
/// of the catalogue, whichever page is shown.
pub open spec fn decision(screen: Screen, e: ComponentEvent) -> Decision {
    match e.kind {
        ComponentKind::Button => if e.component_id@ == skip_id() {
            Decision::Skip
        } else if e.component_id@ == screen.toggle_id() {
            Decision::Show(screen.other())
        } else {
            Decision::Abort(ProtocolError::UnknownComponent(e.component_id))
        },
        ComponentKind::StringSelect => if e.component_id@ != select_id() {
            Decision::Abort(ProtocolError::UnknownComponent(e.component_id))
        } else if e.values@.len() == 0 {
            Decision::Abort(ProtocolError::EmptySelection)
        } else {
            match color_with_key(e.values@[0]@) {
                Some(k) => Decision::Choose(k),
                None => Decision::Abort(ProtocolError::UnknownColor(e.values@[0])),
            }
        },
        ComponentKind::Other => Decision::Abort(ProtocolError::UnexpectedKind),
    }
}

/// What the interaction `e` means on `screen`.
pub fn decide(screen: Screen, e: &ComponentEvent) -> (r: Decision)
    ensures
        r == decision(screen, *e),
{
    let id = e.component_id.as_str();
    match e.kind {
        ComponentKind::Button => {
            let toggle = match screen {
                Screen::InitialColors => "more_colors_button",
                Screen::MoreColors => "initial_colors_button",
            };
            if same_text(id, "skip_button") {
                Decision::Skip
            } else if same_text(id, toggle) {
                match screen {
                    Screen::InitialColors => Decision::Show(Screen::MoreColors),
                    Screen::MoreColors => Decision::Show(Screen::InitialColors),
                }
            } else {
                Decision::Abort(ProtocolError::UnknownComponent(e.component_id.clone()))
            }
        },
        ComponentKind::StringSelect => {
            if !same_text(id, "color_select") {
                Decision::Abort(ProtocolError::UnknownComponent(e.component_id.clone()))
            } else if e.values.len() == 0 {
                Decision::Abort(ProtocolError::EmptySelection)
            } else {
                let value = e.values[0].as_str();
                match find_key(value, 0, CATALOG_LEN) {
                    Some(k) => {
                        proof {
                            let c = choose|c: ColorKey| #[trigger] c.key_text() == value@;
                            lemma_keys_distinct(k, c);
                        }
                        Decision::Choose(k)
                    },
                    None => {
                        proof {
                            if color_with_key(value@) is Some {
                                let c = choose|c: ColorKey| #[trigger] c.key_text() == value@;
                                assert(c.rank() < CATALOG_LEN);
                            }
                        }
                        Decision::Abort(ProtocolError::UnknownColor(e.values[0].clone()))
                    },
                }
            }
        },
        ComponentKind::Other => Decision::Abort(ProtocolError::UnexpectedKind),
    }
}

/// `b` is a button that sends `id`, reads `label`, is drawn in `style` and is
/// turned off exactly when `off` holds.
pub open spec fn is_control(b: Button, id: Seq<char>, label: Seq<char>, style: ButtonStyle, off: bool) -> bool {
    &&& b.target matches ButtonTarget::Custom { id: i, style: s } && i@ == id && s == style
    &&& b.label matches Some(l) && l@ == label
    &&& b.emoji is None
    &&& b.disabled == off
}

/// `options` offer the colours of `screen`, in catalogue order, each under its
/// name and carrying its symbolic key.
pub open spec fn lists_page(screen: Screen, options: Seq<SelectOption>) -> bool {
    &&& options.len() == screen.end() - screen.first()
    &&& forall|j: int, k: ColorKey|
        #![trigger options[j], k.rank()]
        0 <= j < options.len() && k.rank() == screen.first() + j ==> options[j].value@
            == k.key_text() && options[j].label@ == k.name_text()
}

/// `rows` are the controls of `screen`: the colour menu, then the button to the
/// other page beside the skip button; all turned off exactly when `off` holds.
pub open spec fn shows_screen(screen: Screen, rows: Seq<ComponentRow>, off: bool) -> bool {
    &&& rows.len() == 2
    &&& rows[0] matches ComponentRow::Select(m) && m.id@ == select_id() && m.disabled == off && (
    m.placeholder matches Some(p) && p@ == "Select a color"@) && (m.kind matches SelectKind::Text(
        options,
    ) && lists_page(screen, options@))
    &&& rows[1] matches ComponentRow::Buttons(bs) && bs@.len() == 2 && is_control(
        bs@[0],
        screen.toggle_id(),
        screen.toggle_label(),
        ButtonStyle::Secondary,
        off,
    ) && is_control(bs@[1], skip_id(), "Skip"@, ButtonStyle::Danger, off)
}

/// Turning off the controls of a screen leaves the same screen, turned off.
pub proof fn lemma_screen_turned_off(screen: Screen, rows: Seq<ComponentRow>, after: Seq<ComponentRow>)
    requires
        shows_screen(screen, rows, false),
        turned_off_rows(rows, after),
    ensures
        shows_screen(screen, after, true),
{
    assert(turned_off_row(rows[0], after[0]));
    assert(turned_off_row(rows[1], after[1]));
    if let ComponentRow::Buttons(a) = rows[1] {
        if let ComponentRow::Buttons(b) = after[1] {
            assert(b@[0] == a@[0].turned_off());
            assert(b@[1] == a@[1].turned_off());
        }
    }
}

/// A button that sends `id` and reads `label`.
fn control(id: &str, label: &str, style: ButtonStyle) -> (r: Button)
    ensures
        is_control(r, id@, label@, style, false),
{
    Button {
        target: ButtonTarget::Custom { id: String::from_str(id), style },
        label: Some(String::from_str(label)),
        emoji: None,
        disabled: false,
    }
}

/// The controls of `screen`, all turned on.
pub fn screen_rows(screen: Screen) -> (r: Vec<ComponentRow>)
    ensures
        shows_screen(screen, r@, false),
{
    let (first, end) = screen.bounds();
    let mut options: Vec<SelectOption> = Vec::new();
    let mut i: usize = first;
    while i < end
        invariant
            first == screen.first(),
            end == screen.end(),
            first <= i <= end,
            end <= CATALOG_LEN,
            options@.len() == i - first,
            forall|j: int, k: ColorKey|
                #![trigger options@[j], k.rank()]
                0 <= j < options@.len() && k.rank() == first + j ==> options@[j].value@
                    == k.key_text() && options@[j].label@ == k.name_text(),
        decreases end - i,
    {
        let c = ColorKey::from_rank(i);
        options.push(SelectOption { label: String::from_str(c.name()), value: String::from_str(c.key()) });
        proof {
            assert forall|j: int, k: ColorKey|
                #![trigger options@[j], k.rank()]
                0 <= j < options@.len() && k.rank() == first + j implies options@[j].value@
                    == k.key_text() && options@[j].label@ == k.name_text() by {
                if j == i - first {
                    lemma_rank_injective(k, c);
                }
            }
        }
        i += 1;
    }
    let menu = SelectMenu {
        id: String::from_str("color_select"),
        kind: SelectKind::Text(options),
        placeholder: Some(String::from_str("Select a color")),
        disabled: false,
    };
    let toggle = match screen {
        Screen::InitialColors => control("more_colors_button", "More Colors", ButtonStyle::Secondary),
        Screen::MoreColors => control("initial_colors_button", "Initial Colors", ButtonStyle::Secondary),
    };
    let skip = control("skip_button", "Skip", ButtonStyle::Danger);
    vec![ComponentRow::Select(menu), ComponentRow::Buttons(vec![toggle, skip])]
}

/// A colour conversation in progress.
#[derive(Clone, Debug, PartialEq, Eq)]
pub struct Session {
    pub screen: Screen,
    /// The embed being composed; its colour is still open.
    pub artifact: Artifact,
}

impl Session {
    /// The embed can be sent and has no colour yet.
    pub open spec fn wf(&self) -> bool {
        self.artifact.is_complete() && self.artifact.color is None
    }
}

/// Where the conversation stands.
#[derive(Clone, Debug, PartialEq, Eq)]
pub enum Phase {
    /// Waiting for the next interaction.
    Active(Session),
    /// Over, with an embed to send.
    Finished(Artifact),
    /// Given up on an interaction it did not expect.
    Aborted(ProtocolError),
    /// Given up waiting.
    Expired,
}

/// Where the conversation in `s` stands after the event `e`.
pub open spec fn next(s: Session, e: WizardEvent) -> Phase {
    match e {
        WizardEvent::TimedOut => Phase::Expired,
        WizardEvent::Component(c) => match decision(s.screen, c) {
            Decision::Show(t) => Phase::Active(Session { screen: t, ..s }),
            Decision::Choose(k) => Phase::Finished(Artifact { color: Some(k), ..s.artifact }),
            Decision::Skip => Phase::Finished(Artifact { color: None, ..s.artifact }),
            Decision::Abort(p) => Phase::Aborted(p),
        },
    }
}

/// Where the conversation in `s` stands after the events `events`, one at a
/// time; once it is over, later events are not looked at.
pub open spec fn run(s: Session, events: Seq<WizardEvent>) -> Phase
    decreases events.len(),
{
    if events.len() == 0 {
        Phase::Active(s)
    } else {
        match next(s, events[0]) {
            Phase::Active(t) => run(t, events.drop_first()),
            other => other,
        }
    }
}

/// What the prompt reads once a colour was taken.
pub open spec fn chosen_text() -> Seq<char> {
    "Got it, that's all that's implemented for now."@
}

/// What the prompt reads once the colour was skipped.
pub open spec fn skipped_text() -> Seq<char> {
    "Oh okay, well that's it for now."@
}

/// What the prompt reads while a colour is being chosen.
pub open spec fn question_text() -> Seq<char> {
    "Would you like to select a color?"@
}

/// What to do after one event, and the conversation that goes on, if any.
#[derive(Clone, Debug, PartialEq, Eq)]
pub enum Transition {
    /// Redraw the controls as `rows` and wait for the next event.
    Continue { session: Session, rows: Vec<ComponentRow> },
    /// Replace the prompt by `confirmation`, without controls, then send `artifact`.
    Done { artifact: Artifact, confirmation: &'static str },
    /// Redraw the controls as `disabled`, then report the failure.
    Aborted { reason: ProtocolError, disabled: Vec<ComponentRow> },
    /// Report `Failure::PromptTimedOut`; the controls stay as they are.
    TimedOut,
}

impl Transition {
    /// Where the conversation stands after this transition.
    pub open spec fn phase(self) -> Phase {
        match self {
            Transition::Continue { session, .. } => Phase::Active(session),
            Transition::Done { artifact, .. } => Phase::Finished(artifact),
            Transition::Aborted { reason, .. } => Phase::Aborted(reason),
            Transition::TimedOut => Phase::Expired,
        }
    }
}

/// The prompt of a colour conversation: a question above the controls.
#[derive(Clone, Debug, PartialEq, Eq)]
pub struct Prompt {
    pub content: &'static str,
    pub rows: Vec<ComponentRow>,
}

impl Session {
    /// Takes one event.
    pub fn step(self, event: WizardEvent) -> (r: Transition)
        ensures
            r.phase() == next(self, event),
            r matches Transition::Continue { session, rows } ==> shows_screen(
                session.screen,
                rows@,
                false,
            ),
            r matches Transition::Aborted { disabled, .. } ==> shows_screen(
                self.screen,
                disabled@,
                true,
            ),
            r matches Transition::Done { artifact, confirmation } ==> confirmation@ == (
            if artifact.color is Some {
                chosen_text()
            } else {
                skipped_text()
            }),
            self.screen.misses(event) ==> (r matches Transition::Aborted { reason, disabled }
                && reason == ProtocolError::UnknownComponent(event->0.component_id)
                && shows_screen(self.screen, disabled@, true)),
    {
        match event {
            WizardEvent::TimedOut => Transition::TimedOut,
            WizardEvent::Component(c) => {
                let d = decide(self.screen, &c);
                match d {
                    Decision::Show(t) => {
                        let rows = screen_rows(t);
                        Transition::Continue { session: Session { screen: t, ..self }, rows }
                    },
                    Decision::Choose(k) => Transition::Done {
                        artifact: Artifact { color: Some(k), ..self.artifact },
                        confirmation: "Got it, that's all that's implemented for now.",
                    },
                    Decision::Skip => Transition::Done {
                        artifact: Artifact { color: None, ..self.artifact },
                        confirmation: "Oh okay, well that's it for now.",
                    },
                    Decision::Abort(reason) => {
                        let shown = screen_rows(self.screen);
                        let ghost before = shown@;
                        let disabled = disable_rows(shown);
                        proof {
                            lemma_screen_turned_off(self.screen, before, disabled@);
                        }
                        Transition::Aborted { reason, disabled }
                    },
                }
            },
        }
    }
}

/// Opens the colour conversation on `artifact` if it can be sent; the
/// conversation never starts otherwise.
pub fn start(artifact: Artifact) -> (r: Result<(Session, Prompt), Failure>)
    ensures
        r is Ok <==> validity(artifact) is None,
        validity(artifact) matches Some(f) ==> r == Err::<(Session, Prompt), Failure>(f),
        r matches Ok((s, p)) ==> {
            &&& s.wf()
            &&& s.screen == Screen::InitialColors
            &&& s.artifact == Artifact { color: None, ..artifact }
            &&& p.content@ == question_text()
            &&& shows_screen(Screen::InitialColors, p.rows@, false)
        },
{
    match validate(&artifact) {
        Some(f) => Err(f),
        None => {
            let session = Session {
                screen: Screen::InitialColors,
                artifact: Artifact { color: None, ..artifact },
            };
            let prompt = Prompt {
                content: "Would you like to select a color?",
                rows: screen_rows(Screen::InitialColors),
            };
            Ok((session, prompt))
        },
    }
}

/// Runs the form's outcome into the colour conversation: a submission that
/// can make an embed opens it; a missing reply, an empty submission or an
/// over-long field ends everything with no embed.
pub fn begin(event: FormEvent) -> (r: Result<(Session, Prompt), Failure>)
    ensures
        event is TimedOut ==> r == Err::<(Session, Prompt), Failure>(Failure::FormTimedOut),
        event matches FormEvent::Submitted(fields) ==> {
            let title = submitted_text(fields@, title_id());
            let description = submitted_text(fields@, description_id());
            &&& (r is Ok <==> text_validity(title, description) is None)
            &&& text_validity(title, description) matches Some(f) ==> r == Err::<
                (Session, Prompt),
                Failure,
            >(f)
            &&& r matches Ok((s, p)) ==> {
                &&& s.wf()
                &&& s.screen == Screen::InitialColors
                &&& text_of(s.artifact.title) == title
                &&& text_of(s.artifact.description) == description
                &&& s.artifact.url is None
                &&& p.content@ == question_text()
                &&& shows_screen(Screen::InitialColors, p.rows@, false)
            }
        },
{
    match collect_form(event) {
        Ok(a) => start(a),
        Err(e) => Err(e),
    }
}

/// One event after a run is one more step, unless the run is over.
pub proof fn lemma_run_push(s: Session, events: Seq<WizardEvent>, e: WizardEvent)
    ensures
        run(s, events.push(e)) == match run(s, events) {
            Phase::Active(t) => next(t, e),
            other => other,
        },
    decreases events.len(),
{
    if events.len() == 0 {
        assert(events.push(e).drop_first() =~= Seq::<WizardEvent>::empty());
        if let Phase::Active(t) = next(s, e) {
            assert(run(t, Seq::<WizardEvent>::empty()) == Phase::Active(t));
        }
    } else {
        assert(events.push(e)[0] == events[0]);
        assert(events.push(e).drop_first() =~= events.drop_first().push(e));
        if let Phase::Active(t) = next(s, events[0]) {
            lemma_run_push(t, events.drop_first(), e);
        }
    }
}

/// Once the conversation is over, later events change nothing.
pub proof fn lemma_over_stays_over(s: Session, events: Seq<WizardEvent>, more: Seq<WizardEvent>)
    requires
        run(s, events) !is Active,
    ensures
        run(s, events + more) == run(s, events),
    decreases events.len(),
{
    if events.len() == 0 {
    } else {
        assert((events + more)[0] == events[0]);
        assert((events + more).drop_first() =~= events.drop_first() + more);
        if let Phase::Active(t) = next(s, events[0]) {
            lemma_over_stays_over(t, events.drop_first(), more);
        }
    }
}

/// While the conversation goes on, only the page changes: the embed is the
/// one it started with.
pub proof fn lemma_paging_keeps_artifact(s: Session, events: Seq<WizardEvent>)
    ensures
        run(s, events) matches Phase::Active(t) ==> t.artifact == s.artifact,
    decreases events.len(),
{
    if events.len() > 0 {
        if let Phase::Active(t) = next(s, events[0]) {
            lemma_paging_keeps_artifact(t, events.drop_first());
        }
    }
}

/// However the user turned the pages before, choosing a colour of the
/// catalogue ends the conversation with the embed it started with,
/// coloured with the colour whose symbolic key was chosen; later events change
/// nothing.
pub proof fn lemma_choice_sets_color(
    s: Session,
    pages: Seq<WizardEvent>,
    choice: ComponentEvent,
    more: Seq<WizardEvent>,
)
    requires
        run(s, pages) is Active,
        choice.kind == ComponentKind::StringSelect,
        choice.component_id@ == select_id(),
        choice.values@.len() > 0,
        color_with_key(choice.values@[0]@) is Some,
    ensures
        color_with_key(choice.values@[0]@) matches Some(k) && k.key_text()
            == choice.values@[0]@,
        run(s, pages.push(WizardEvent::Component(choice))) == Phase::Finished(
            Artifact { color: color_with_key(choice.values@[0]@), ..s.artifact },
        ),
        run(s, pages.push(WizardEvent::Component(choice)) + more) == run(
            s,
            pages.push(WizardEvent::Component(choice)),
        ),
{
    let v = choice.values@[0]@;
    let k = choose|k: ColorKey| #[trigger] k.key_text() == v;
    lemma_run_push(s, pages, WizardEvent::Component(choice));
    lemma_paging_keeps_artifact(s, pages);
    lemma_over_stays_over(s, pages.push(WizardEvent::Component(choice)), more);
}

/// Wherever the conversation stands, skipping ends it with the embed it
/// started with and no colour; later events change nothing.
pub proof fn lemma_skip_finishes(
    s: Session,
    pages: Seq<WizardEvent>,
    skip: ComponentEvent,
    more: Seq<WizardEvent>,
)
    requires
        run(s, pages) is Active,
        skip.kind == ComponentKind::Button,
        skip.component_id@ == skip_id(),
    ensures
        run(s, pages.push(WizardEvent::Component(skip))) == Phase::Finished(
            Artifact { color: None, ..s.artifact },
        ),
        run(s, pages.push(WizardEvent::Component(skip)) + more) == run(
            s,
            pages.push(WizardEvent::Component(skip)),
        ),
{
    lemma_run_push(s, pages, WizardEvent::Component(skip));
    lemma_paging_keeps_artifact(s, pages);
    lemma_over_stays_over(s, pages.push(WizardEvent::Component(skip)), more);
}

/// Wherever the conversation stands, an interaction with a button or menu
/// that is not on the screen ends it, naming the control; later events change
/// nothing.
pub proof fn lemma_unknown_control_aborts(
    s: Session,
    pages: Seq<WizardEvent>,
    e: WizardEvent,
    more: Seq<WizardEvent>,
)
    requires
        run(s, pages) is Active,
        run(s, pages)->Active_0.screen.misses(e),
    ensures
        run(s, pages.push(e)) == Phase::Aborted(ProtocolError::UnknownComponent(e->0.component_id)),
        run(s, pages.push(e) + more) == run(s, pages.push(e)),
{
    lemma_run_push(s, pages, e);
    lemma_over_stays_over(s, pages.push(e), more);
}

} // verus!
