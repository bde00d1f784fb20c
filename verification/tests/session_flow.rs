use embed_session::InteractionEvent;
use embed_session::MessageEdit;
use embed_session::Phase;
use embed_session::ResponseBody;
use embed_session::ResponseToken;
use embed_session::Session;
use embed_session::StepOutcome;

fn button(id: &str) -> InteractionEvent {
    InteractionEvent::ButtonActivated { control_id: id.to_owned() }
}

fn form(id: &str, values: Vec<&str>) -> InteractionEvent {
    InteractionEvent::FormSubmitted {
        form_id: id.to_owned(),
        field_values: values.into_iter().map(|v| v.to_owned()).collect(),
    }
}

fn expect_acted(out: StepOutcome) -> (embed_session::GatewayResponse, Vec<MessageEdit>) {
    match out {
        StepOutcome::Acted { response, edits } => (response, edits),
        StepOutcome::Fault => panic!("expected the event to be accepted"),
    }
}

#[test]
fn start_sends_prompt_with_title_button() {
    let (session, prompt) = Session::start(99);
    assert_eq!(session.phase(), Phase::AwaitingTitleButton);
    assert_eq!(session.target(), 99);
    assert!(session.document().title().is_none());
    assert_eq!(session.document().field_count(), 0);
    assert_eq!(prompt.content, "Create and embed with modals");
    assert_eq!(prompt.buttons.len(), 1);
    assert_eq!(prompt.buttons[0].control_id, "button_title");
    assert_eq!(prompt.buttons[0].label, "Set the title");
    assert!(prompt.buttons[0].primary);
}

#[test]
fn title_button_shows_title_form_and_clears_prompt_controls() {
    let (mut session, _prompt) = Session::start(1);
    let (response, edits) = expect_acted(session.step(button("button_title"), ResponseToken::new(10)));
    assert_eq!(session.phase(), Phase::AwaitingTitleForm);
    assert_eq!(response.token.id(), 10);
    match response.body {
        ResponseBody::ShowForm { form } => {
            assert_eq!(form.form_id, "modal_1");
            assert_eq!(form.title, "Set the title for the embed");
            assert_eq!(form.inputs.len(), 1);
            assert_eq!(form.inputs[0].input_id, "title");
            assert_eq!(form.inputs[0].label, "Embed title");
            assert!(!form.inputs[0].multiline);
        }
        _ => panic!("the title button must be answered with the title form"),
    }
    assert_eq!(edits.len(), 1);
    assert!(matches!(edits[0], MessageEdit::ClearControls));
}

#[test]
fn end_to_end_scenario() {
    // Command phrase received: the session starts with the prompt.
    let (mut session, _prompt) = Session::start(7);

    // Button "Set the title" activated.
    let (response, _edits) = expect_acted(session.step(button("button_title"), ResponseToken::new(1)));
    assert_eq!(response.token.id(), 1);

    // Title form submitted with "My Title".
    let (response, edits) = expect_acted(session.step(form("modal_1", vec!["My Title"]), ResponseToken::new(2)));
    assert_eq!(response.token.id(), 2);
    assert!(matches!(response.body, ResponseBody::DeferredAck));
    assert_eq!(session.phase(), Phase::Editing);
    assert_eq!(session.document().title().as_deref(), Some("My Title"));
    assert_eq!(edits.len(), 1);
    match &edits[0] {
        MessageEdit::ShowDocument { content, document, buttons } => {
            assert_eq!(content, "Add fields to the");
            assert_eq!(document.title, "My Title");
            assert_eq!(document.fields.len(), 0);
            assert_eq!(buttons.len(), 2);
            assert_eq!(buttons[0].control_id, "add_field");
            assert_eq!(buttons[0].label, "Add Field");
            assert!(buttons[0].primary);
            assert_eq!(buttons[1].control_id, "done");
            assert_eq!(buttons[1].label, "Done");
            assert!(!buttons[1].primary);
        }
        _ => panic!("the title entry must redraw the document with the edit buttons"),
    }

    // "Add Field" activated: answered with the field form.
    let (response, edits) = expect_acted(session.step(button("add_field"), ResponseToken::new(3)));
    assert_eq!(response.token.id(), 3);
    assert!(edits.is_empty());
    match response.body {
        ResponseBody::ShowForm { form } => {
            assert_eq!(form.form_id, "modal_2");
            assert_eq!(form.title, "Add a field to the embed");
            assert_eq!(form.inputs.len(), 2);
            assert_eq!(form.inputs[0].input_id, "field_title");
            assert_eq!(form.inputs[0].label, "Field Title");
            assert!(!form.inputs[0].multiline);
            assert_eq!(form.inputs[1].input_id, "field_content");
            assert_eq!(form.inputs[1].label, "Field Content");
            assert!(form.inputs[1].multiline);
        }
        _ => panic!("the add-field button must be answered with the field form"),
    }

    // Field form submitted with ["Stat", "42"].
    let (response, edits) = expect_acted(session.step(form("modal_2", vec!["Stat", "42"]), ResponseToken::new(4)));
    assert_eq!(response.token.id(), 4);
    assert!(edits.is_empty());
    assert_eq!(session.document().field_count(), 1);
    assert_eq!(session.document().field_at(0).name, "Stat");
    assert_eq!(session.document().field_at(0).value, "42");
    assert!(!session.document().field_at(0).inline);
    match response.body {
        ResponseBody::UpdateMessage { content, document, clear_controls } => {
            assert!(content.is_none());
            assert!(!clear_controls);
            assert_eq!(document.title, "My Title");
            assert_eq!(document.fields.len(), 1);
            assert_eq!(document.fields[0].name, "Stat");
            assert_eq!(document.fields[0].value, "42");
        }
        _ => panic!("a field submission must be acknowledged by redrawing in place"),
    }

    // "Done" activated: final render, zero interactive controls remain.
    let (response, edits) = expect_acted(session.step(button("done"), ResponseToken::new(5)));
    assert_eq!(response.token.id(), 5);
    assert!(edits.is_empty());
    assert_eq!(session.phase(), Phase::Terminated);
    match response.body {
        ResponseBody::UpdateMessage { content, document, clear_controls } => {
            assert_eq!(content.as_deref(), Some(""));
            assert!(clear_controls);
            assert_eq!(document.title, "My Title");
            assert_eq!(document.fields.len(), 1);
            assert_eq!(document.fields[0].name, "Stat");
            assert_eq!(document.fields[0].value, "42");
            assert!(!document.fields[0].inline);
        }
        _ => panic!("the terminal button must be acknowledged with the final render"),
    }
}

#[test]
fn title_form_before_button_is_a_fault() {
    let (mut session, _prompt) = Session::start(1);
    let out = session.step(form("modal_1", vec!["Early"]), ResponseToken::new(1));
    assert!(matches!(out, StepOutcome::Fault));
    assert_eq!(session.phase(), Phase::AwaitingTitleButton);
    assert!(session.document().title().is_none());
}

#[test]
fn title_is_set_at_most_once() {
    let (mut session, _prompt) = Session::start(1);
    expect_acted(session.step(button("button_title"), ResponseToken::new(1)));
    expect_acted(session.step(form("modal_1", vec!["First"]), ResponseToken::new(2)));
    let out = session.step(form("modal_1", vec!["Second"]), ResponseToken::new(3));
    assert!(matches!(out, StepOutcome::Fault));
    assert_eq!(session.document().title().as_deref(), Some("First"));
}

#[test]
fn fields_only_ever_grow() {
    let (mut session, _prompt) = Session::start(1);
    expect_acted(session.step(button("button_title"), ResponseToken::new(1)));
    expect_acted(session.step(form("modal_1", vec!["T"]), ResponseToken::new(2)));
    assert_eq!(session.document().field_count(), 0);
    expect_acted(session.step(form("modal_2", vec!["a", "1"]), ResponseToken::new(3)));
    assert_eq!(session.document().field_count(), 1);
    expect_acted(session.step(form("modal_2", vec!["b", "2"]), ResponseToken::new(4)));
    assert_eq!(session.document().field_count(), 2);
    assert_eq!(session.document().field_at(0).name, "a");
    assert_eq!(session.document().field_at(0).value, "1");
    assert_eq!(session.document().field_at(1).name, "b");
    assert_eq!(session.document().field_at(1).value, "2");
    // A faulting event changes nothing.
    let out = session.step(button("button_title"), ResponseToken::new(5));
    assert!(matches!(out, StepOutcome::Fault));
    assert_eq!(session.document().field_count(), 2);
}

#[test]
fn every_accepted_event_gets_exactly_one_response_with_its_token() {
    let (mut session, _prompt) = Session::start(1);
    let tokens = [31u64, 32, 33, 34];
    let events = [
        button("button_title"),
        form("modal_1", vec!["T"]),
        form("modal_2", vec!["n", "v"]),
        button("done"),
    ];
    for (event, id) in events.into_iter().zip(tokens) {
        let (response, _edits) = expect_acted(session.step(event, ResponseToken::new(id)));
        assert_eq!(response.token.id(), id);
    }
}

#[test]
fn timeout_terminates_without_document_mutation() {
    let (mut session, _prompt) = Session::start(1);
    expect_acted(session.step(button("button_title"), ResponseToken::new(1)));
    assert_eq!(session.phase(), Phase::AwaitingTitleForm);
    let notice = session.on_timeout();
    assert_eq!(notice, "Timed out");
    assert_eq!(session.phase(), Phase::Terminated);
    assert!(session.document().title().is_none());
    assert_eq!(session.document().field_count(), 0);
    // No further event is accepted, and the document stays untouched.
    let out = session.step(form("modal_1", vec!["Late"]), ResponseToken::new(2));
    assert!(matches!(out, StepOutcome::Fault));
    assert!(session.document().title().is_none());
}

#[test]
fn unknown_ids_and_wrong_arities_are_faults() {
    let (mut session, _prompt) = Session::start(1);
    assert!(matches!(
        session.step(button("mystery"), ResponseToken::new(1)),
        StepOutcome::Fault
    ));
    expect_acted(session.step(button("button_title"), ResponseToken::new(2)));
    // The title form needs exactly one value.
    assert!(matches!(
        session.step(form("modal_1", vec![]), ResponseToken::new(3)),
        StepOutcome::Fault
    ));
    assert!(matches!(
        session.step(form("modal_1", vec!["a", "b"]), ResponseToken::new(4)),
        StepOutcome::Fault
    ));
    expect_acted(session.step(form("modal_1", vec!["T"]), ResponseToken::new(5)));
    // The field form needs exactly two values, and only issued ids exist.
    assert!(matches!(
        session.step(form("modal_2", vec!["only-name"]), ResponseToken::new(6)),
        StepOutcome::Fault
    ));
    assert!(matches!(
        session.step(form("modal_9", vec!["a", "b"]), ResponseToken::new(7)),
        StepOutcome::Fault
    ));
    assert!(matches!(
        session.step(button("button_title"), ResponseToken::new(8)),
        StepOutcome::Fault
    ));
    // The session is still usable afterwards.
    expect_acted(session.step(button("done"), ResponseToken::new(9)));
    assert_eq!(session.phase(), Phase::Terminated);
}

#[test]
fn terminated_session_accepts_nothing() {
    let (mut session, _prompt) = Session::start(1);
    expect_acted(session.step(button("button_title"), ResponseToken::new(1)));
    expect_acted(session.step(form("modal_1", vec!["T"]), ResponseToken::new(2)));
    expect_acted(session.step(button("done"), ResponseToken::new(3)));
    for event in [button("done"), button("add_field"), form("modal_2", vec!["a", "b"])] {
        assert!(matches!(session.step(event, ResponseToken::new(4)), StepOutcome::Fault));
    }
    assert_eq!(session.document().field_count(), 0);
    assert_eq!(session.document().title().as_deref(), Some("T"));
}
