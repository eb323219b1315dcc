use embed_creator::artifact::{emit, Artifact, Failure, ProtocolError, ValidationError};
use embed_creator::catalog::ColorKey;
use embed_creator::components::{Button, ButtonStyle, ButtonTarget, ComponentRow, SelectKind};
use embed_creator::form::{collect_form, FieldValue, FormEvent};
use embed_creator::wizard::{
    begin, decide, screen_rows, start, ComponentEvent, ComponentKind, Decision, Screen, Session,
    Transition, WizardEvent,
};

fn field(id: &str, value: Option<&str>) -> FieldValue {
    FieldValue { id: id.to_string(), value: value.map(|v| v.to_string()) }
}

fn submitted(title: Option<&str>, description: Option<&str>) -> FormEvent {
    FormEvent::Submitted(vec![field("title", title), field("description", description)])
}

fn button(id: &str) -> WizardEvent {
    WizardEvent::Component(ComponentEvent {
        component_id: id.to_string(),
        kind: ComponentKind::Button,
        values: vec![],
    })
}

fn select(id: &str, values: &[&str]) -> WizardEvent {
    WizardEvent::Component(ComponentEvent {
        component_id: id.to_string(),
        kind: ComponentKind::StringSelect,
        values: values.iter().map(|v| v.to_string()).collect(),
    })
}

fn opened(title: Option<&str>, description: Option<&str>) -> Session {
    let (session, prompt) = begin(submitted(title, description)).unwrap();
    assert_eq!(prompt.content, "Would you like to select a color?");
    session
}

fn continued(t: Transition) -> (Session, Vec<ComponentRow>) {
    match t {
        Transition::Continue { session, rows } => (session, rows),
        other => panic!("expected the conversation to go on, got {:?}", other),
    }
}

fn done(t: Transition) -> (Artifact, &'static str) {
    match t {
        Transition::Done { artifact, confirmation } => (artifact, confirmation),
        other => panic!("expected the conversation to end, got {:?}", other),
    }
}

fn option_values(rows: &[ComponentRow]) -> Vec<String> {
    match &rows[0] {
        ComponentRow::Select(menu) => match &menu.kind {
            SelectKind::Text(options) => options.iter().map(|o| o.value.clone()).collect(),
            other => panic!("expected a text menu, got {:?}", other),
        },
        other => panic!("expected a menu row, got {:?}", other),
    }
}

fn button_ids(rows: &[ComponentRow]) -> Vec<(String, bool)> {
    match &rows[1] {
        ComponentRow::Buttons(buttons) => buttons
            .iter()
            .map(|b| match &b.target {
                ButtonTarget::Custom { id, .. } => (id.clone(), b.disabled),
                other => panic!("expected a custom button, got {:?}", other),
            })
            .collect(),
        other => panic!("expected a button row, got {:?}", other),
    }
}

#[test]
fn scenario_select_red_on_first_page() {
    let session = opened(Some("Hello"), Some(""));
    let (artifact, confirmation) = done(session.step(select("color_select", &["RED"])));
    assert_eq!(
        artifact,
        Artifact {
            title: Some("Hello".to_string()),
            description: None,
            url: None,
            color: Some(ColorKey::Red),
        }
    );
    assert_eq!(confirmation, "Got it, that's all that's implemented for now.");
}

#[test]
fn scenario_empty_form_never_starts() {
    let r = begin(submitted(None, None));
    assert_eq!(r.unwrap_err(), Failure::Invalid(ValidationError::MissingTitleAndDescription));
    let r = begin(submitted(Some(""), Some("")));
    assert_eq!(r.unwrap_err(), Failure::Invalid(ValidationError::MissingTitleAndDescription));
    let r = begin(FormEvent::Submitted(vec![]));
    assert_eq!(r.unwrap_err(), Failure::Invalid(ValidationError::MissingTitleAndDescription));
}

#[test]
fn scenario_teal_from_second_page() {
    let session = opened(None, Some("World"));
    let (session, rows) = continued(session.step(button("more_colors_button")));
    assert_eq!(session.screen, Screen::MoreColors);
    assert_eq!(option_values(&rows), vec!["ROHRKATZE_BLUE", "ROSEWATER", "TEAL"]);
    assert_eq!(
        button_ids(&rows),
        vec![("initial_colors_button".to_string(), false), ("skip_button".to_string(), false)]
    );
    let (artifact, _) = done(session.step(select("color_select", &["TEAL"])));
    assert_eq!(
        artifact,
        Artifact {
            title: None,
            description: Some("World".to_string()),
            url: None,
            color: Some(ColorKey::Teal),
        }
    );
}

#[test]
fn scenario_skip_leaves_no_color() {
    let session = opened(Some("Title"), Some("Body"));
    let (artifact, confirmation) = done(session.step(button("skip_button")));
    assert_eq!(artifact.color, None);
    assert_eq!(artifact.title, Some("Title".to_string()));
    assert_eq!(artifact.description, Some("Body".to_string()));
    assert_eq!(confirmation, "Oh okay, well that's it for now.");
}

#[test]
fn scenario_unknown_component_disables_controls() {
    let session = opened(Some("Title"), None);
    match session.step(button("bogus")) {
        Transition::Aborted { reason, disabled } => {
            assert_eq!(reason, ProtocolError::UnknownComponent("bogus".to_string()));
            let shown = screen_rows(Screen::InitialColors);
            assert_eq!(disabled.len(), shown.len());
            match (&disabled[0], &shown[0]) {
                (ComponentRow::Select(off), ComponentRow::Select(on)) => {
                    assert!(off.disabled);
                    assert!(!on.disabled);
                    assert_eq!(off.placeholder, on.placeholder);
                    assert_eq!(off.kind, on.kind);
                }
                other => panic!("unexpected rows {:?}", other),
            }
            assert_eq!(
                button_ids(&disabled),
                vec![("more_colors_button".to_string(), true), ("skip_button".to_string(), true)]
            );
            assert_eq!(
                Failure::Protocol(reason).message(),
                "Got unknown component ID `bogus`"
            );
        }
        other => panic!("expected an abort, got {:?}", other),
    }
}

#[test]
fn unknown_menu_id_aborts() {
    let session = opened(Some("Title"), None);
    match session.step(select("bogus", &["RED"])) {
        Transition::Aborted { reason, disabled } => {
            assert_eq!(reason, ProtocolError::UnknownComponent("bogus".to_string()));
            assert_eq!(disabled.len(), 2);
        }
        other => panic!("expected an abort, got {:?}", other),
    }
}

#[test]
fn paging_back_and_forth_does_not_change_the_choice() {
    let direct = opened(Some("Hello"), None);
    let (direct_artifact, _) = done(direct.step(select("color_select", &["DARK_TEAL"])));

    let mut session = opened(Some("Hello"), None);
    for _ in 0..3 {
        let (s, _) = continued(session.step(button("more_colors_button")));
        let (s, rows) = continued(s.step(button("initial_colors_button")));
        assert_eq!(s.screen, Screen::InitialColors);
        assert_eq!(option_values(&rows).len(), 25);
        session = s;
    }
    let (paged_artifact, _) = done(session.step(select("color_select", &["DARK_TEAL"])));
    assert_eq!(paged_artifact, direct_artifact);
    assert_eq!(paged_artifact.color, Some(ColorKey::DarkTeal));
}

#[test]
fn skip_from_second_page() {
    let session = opened(Some("Hello"), None);
    let (session, _) = continued(session.step(button("more_colors_button")));
    let (artifact, _) = done(session.step(button("skip_button")));
    assert_eq!(artifact.color, None);
    assert_eq!(artifact.title, Some("Hello".to_string()));
}

#[test]
fn unknown_component_on_second_page_disables_second_page() {
    let session = opened(Some("Hello"), None);
    let (session, _) = continued(session.step(button("more_colors_button")));
    match session.step(button("more_colors_button")) {
        Transition::Aborted { reason, disabled } => {
            assert_eq!(reason, ProtocolError::UnknownComponent("more_colors_button".to_string()));
            assert_eq!(option_values(&disabled), vec!["ROHRKATZE_BLUE", "ROSEWATER", "TEAL"]);
            assert_eq!(
                button_ids(&disabled),
                vec![("initial_colors_button".to_string(), true), ("skip_button".to_string(), true)]
            );
        }
        other => panic!("expected an abort, got {:?}", other),
    }
}

#[test]
fn colour_of_the_other_page_is_taken() {
    let session = opened(Some("Hello"), None);
    let (artifact, _) = done(session.step(select("color_select", &["TEAL"])));
    assert_eq!(artifact.color, Some(ColorKey::Teal));
    let session = opened(Some("Hello"), None);
    let (session, _) = continued(session.step(button("more_colors_button")));
    let (artifact, _) = done(session.step(select("color_select", &["BLITZ_BLUE"])));
    assert_eq!(artifact.color, Some(ColorKey::BlitzBlue));
}

#[test]
fn value_outside_the_catalogue_is_refused() {
    let session = opened(Some("Hello"), None);
    match session.step(select("color_select", &["CHARTREUSE"])) {
        Transition::Aborted { reason, .. } => {
            assert_eq!(reason, ProtocolError::UnknownColor("CHARTREUSE".to_string()));
            assert_eq!(
                Failure::Protocol(reason).message(),
                "Received unexpected color `CHARTREUSE`"
            );
        }
        other => panic!("expected an abort, got {:?}", other),
    }
}

#[test]
fn over_long_fields_never_start_the_conversation() {
    let long_title = "t".repeat(257);
    let r = begin(submitted(Some(&long_title), Some("Body")));
    assert_eq!(r.unwrap_err(), Failure::Invalid(ValidationError::TitleTooLong));
    let long_description = "é".repeat(4097);
    let r = begin(submitted(Some("Title"), Some(&long_description)));
    assert_eq!(r.unwrap_err(), Failure::Invalid(ValidationError::DescriptionTooLong));
    assert_eq!(
        Failure::Invalid(ValidationError::TitleTooLong).message(),
        "Embed title must be at most 256 characters"
    );
    assert_eq!(
        Failure::Invalid(ValidationError::DescriptionTooLong).message(),
        "Embed description must be at most 4096 characters"
    );
}

#[test]
fn fields_at_their_limits_are_taken() {
    let title = "é".repeat(256);
    let description = "d".repeat(4096);
    let session = opened(Some(&title), Some(&description));
    assert_eq!(session.artifact.title, Some(title));
    assert_eq!(session.artifact.description, Some(description));
}

#[test]
fn keys_are_case_sensitive_in_the_menu() {
    let session = opened(Some("Hello"), None);
    match session.step(select("color_select", &["red"])) {
        Transition::Aborted { reason, .. } => {
            assert_eq!(reason, ProtocolError::UnknownColor("red".to_string()))
        }
        other => panic!("expected an abort, got {:?}", other),
    }
}

#[test]
fn empty_selection_aborts() {
    let session = opened(Some("Hello"), None);
    match session.step(select("color_select", &[])) {
        Transition::Aborted { reason, .. } => assert_eq!(reason, ProtocolError::EmptySelection),
        other => panic!("expected an abort, got {:?}", other),
    }
}

#[test]
fn other_kind_aborts() {
    let session = opened(Some("Hello"), None);
    let event = WizardEvent::Component(ComponentEvent {
        component_id: "color_select".to_string(),
        kind: ComponentKind::Other,
        values: vec![],
    });
    match session.step(event) {
        Transition::Aborted { reason, .. } => {
            assert_eq!(reason, ProtocolError::UnexpectedKind);
            assert_eq!(
                Failure::Protocol(reason).message(),
                "Expected component kind to be `StringSelect` or `Button`"
            );
        }
        other => panic!("expected an abort, got {:?}", other),
    }
}

#[test]
fn timeout_in_conversation_ends_without_disabling() {
    let session = opened(Some("Hello"), None);
    assert_eq!(session.step(WizardEvent::TimedOut), Transition::TimedOut);
}

#[test]
fn form_timeout_carries_no_artifact() {
    assert_eq!(collect_form(FormEvent::TimedOut), Err(Failure::FormTimedOut));
    assert_eq!(begin(FormEvent::TimedOut).unwrap_err(), Failure::FormTimedOut);
    assert_eq!(Failure::FormTimedOut.message(), "Ran out of time for modal to submit");
    assert_eq!(Failure::PromptTimedOut.message(), "Ran out of time waiting for a response");
}

#[test]
fn emit_needs_title_or_description() {
    let empty = Artifact { title: None, description: None, url: None, color: Some(ColorKey::Red) };
    assert_eq!(
        emit(empty),
        Err(Failure::Invalid(ValidationError::MissingTitleAndDescription))
    );
    let titled = Artifact { title: Some("T".to_string()), description: None, url: None, color: None };
    assert_eq!(emit(titled.clone()), Ok(titled));
    let described =
        Artifact { title: None, description: Some("D".to_string()), url: None, color: None };
    assert_eq!(emit(described.clone()), Ok(described));
    assert_eq!(
        Failure::Invalid(ValidationError::MissingTitleAndDescription).message(),
        "Embed must have at least a title or description"
    );
}

#[test]
fn start_clears_a_preset_color() {
    let a = Artifact {
        title: Some("T".to_string()),
        description: None,
        url: None,
        color: Some(ColorKey::Gold),
    };
    let (session, prompt) = start(a).unwrap();
    assert_eq!(session.artifact.color, None);
    assert_eq!(session.screen, Screen::InitialColors);
    assert_eq!(option_values(&prompt.rows).len(), 25);
    assert_eq!(option_values(&prompt.rows)[0], "BLITZ_BLUE");
    assert_eq!(option_values(&prompt.rows)[24], "RED");
}

#[test]
fn decide_on_each_screen() {
    let toggle = ComponentEvent {
        component_id: "initial_colors_button".to_string(),
        kind: ComponentKind::Button,
        values: vec![],
    };
    assert_eq!(decide(Screen::MoreColors, &toggle), Decision::Show(Screen::InitialColors));
    assert_eq!(
        decide(Screen::InitialColors, &toggle),
        Decision::Abort(ProtocolError::UnknownComponent("initial_colors_button".to_string()))
    );
    let pick = ComponentEvent {
        component_id: "color_select".to_string(),
        kind: ComponentKind::StringSelect,
        values: vec!["ROSEWATER".to_string(), "RED".to_string()],
    };
    assert_eq!(decide(Screen::MoreColors, &pick), Decision::Choose(ColorKey::Rosewater));
}

#[test]
fn screen_rows_draw_buttons() {
    let rows = screen_rows(Screen::MoreColors);
    match &rows[1] {
        ComponentRow::Buttons(buttons) => {
            assert_eq!(
                buttons[0],
                Button {
                    target: ButtonTarget::Custom {
                        id: "initial_colors_button".to_string(),
                        style: ButtonStyle::Secondary,
                    },
                    label: Some("Initial Colors".to_string()),
                    emoji: None,
                    disabled: false,
                }
            );
            assert_eq!(buttons[1].label, Some("Skip".to_string()));
            assert_eq!(
                buttons[1].target,
                ButtonTarget::Custom { id: "skip_button".to_string(), style: ButtonStyle::Danger }
            );
        }
        other => panic!("expected buttons, got {:?}", other),
    }
}
