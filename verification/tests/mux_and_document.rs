use embed_session::Document;
use embed_session::EventSource;
use embed_session::InteractionEvent;
use embed_session::RenderedDocument;
use embed_session::StampedEvent;
use embed_session::WaitOutcome;
use embed_session::mux::TITLE_WAIT_BOUND;
use embed_session::mux::bounded_title_wait;
use embed_session::mux::merge_by_arrival;

fn stamped(at: u64, source: EventSource, id: &str) -> StampedEvent {
    StampedEvent { at, source, event: InteractionEvent::ButtonActivated { control_id: id.to_owned() } }
}

fn stamped_form(at: u64, id: &str) -> StampedEvent {
    StampedEvent {
        at,
        source: EventSource::Forms,
        event: InteractionEvent::FormSubmitted { form_id: id.to_owned(), field_values: vec![] },
    }
}

fn ids(merged: &[StampedEvent]) -> Vec<String> {
    merged
        .iter()
        .map(|s| match &s.event {
            InteractionEvent::ButtonActivated { control_id } => control_id.clone(),
            InteractionEvent::FormSubmitted { form_id, .. } => form_id.clone(),
        })
        .collect()
}

#[test]
fn merge_follows_arrival_order() {
    let buttons = vec![
        stamped(1, EventSource::Buttons, "b1"),
        stamped(5, EventSource::Buttons, "b2"),
        stamped(9, EventSource::Buttons, "b3"),
    ];
    let forms = vec![stamped_form(3, "f1"), stamped_form(7, "f2")];
    let merged = merge_by_arrival(buttons, forms);
    assert_eq!(ids(&merged), vec!["b1", "f1", "b2", "f2", "b3"]);
    let times: Vec<u64> = merged.iter().map(|s| s.at).collect();
    assert_eq!(times, vec![1, 3, 5, 7, 9]);
}

#[test]
fn merge_keeps_each_streams_own_order_and_starves_neither() {
    let buttons = vec![
        stamped(2, EventSource::Buttons, "b1"),
        stamped(2, EventSource::Buttons, "b2"),
    ];
    let forms = vec![stamped_form(2, "f1"), stamped_form(2, "f2")];
    let merged = merge_by_arrival(buttons, forms);
    assert_eq!(merged.len(), 4);
    let got = ids(&merged);
    let buttons_only: Vec<&String> = got.iter().filter(|i| i.starts_with('b')).collect();
    let forms_only: Vec<&String> = got.iter().filter(|i| i.starts_with('f')).collect();
    assert_eq!(buttons_only, ["b1", "b2"]);
    assert_eq!(forms_only, ["f1", "f2"]);
}

#[test]
fn merge_with_one_empty_stream() {
    let forms = vec![stamped_form(4, "f1"), stamped_form(6, "f2")];
    let merged = merge_by_arrival(vec![], forms);
    assert_eq!(ids(&merged), vec!["f1", "f2"]);
    let merged = merge_by_arrival(vec![], vec![]);
    assert!(merged.is_empty());
}

#[test]
fn title_wait_delivers_within_the_bound() {
    let outcome = bounded_title_wait(100, Some(stamped_form(120, "modal_1")));
    match outcome {
        WaitOutcome::Delivered { event } => match event {
            InteractionEvent::FormSubmitted { form_id, .. } => assert_eq!(form_id, "modal_1"),
            _ => panic!("the delivered event must be the form submission"),
        },
        WaitOutcome::TimedOut => panic!("a submission within the bound must be delivered"),
    }
    // The boundary itself is still within the bound.
    assert!(matches!(
        bounded_title_wait(100, Some(stamped_form(100 + TITLE_WAIT_BOUND, "modal_1"))),
        WaitOutcome::Delivered { .. }
    ));
}

#[test]
fn title_wait_times_out_past_the_bound() {
    assert!(matches!(
        bounded_title_wait(100, Some(stamped_form(100 + TITLE_WAIT_BOUND + 1, "modal_1"))),
        WaitOutcome::TimedOut
    ));
    assert!(matches!(bounded_title_wait(100, None), WaitOutcome::TimedOut));
}

#[test]
fn document_mutation_and_snapshot() {
    let mut doc = Document::new();
    assert!(doc.title().is_none());
    assert_eq!(doc.field_count(), 0);
    doc.set_title("Report".to_owned());
    assert_eq!(doc.title().as_deref(), Some("Report"));
    doc.append_field("Stat".to_owned(), "42".to_owned());
    doc.append_field("Note".to_owned(), "fine".to_owned());
    assert_eq!(doc.field_count(), 2);
    assert_eq!(doc.field_at(0).name, "Stat");
    assert_eq!(doc.field_at(0).value, "42");
    assert!(!doc.field_at(0).inline);
    assert_eq!(doc.field_at(1).name, "Note");
    assert_eq!(doc.field_at(1).value, "fine");

    let snap = doc.snapshot();
    assert_eq!(snap.title().as_deref(), Some("Report"));
    assert_eq!(snap.field_count(), 2);
    assert_eq!(snap.field_at(1).name, "Note");

    // Mutating the document leaves the snapshot behind.
    doc.append_field("Extra".to_owned(), "x".to_owned());
    assert_eq!(doc.field_count(), 3);
    assert_eq!(snap.field_count(), 2);
}

fn assert_same_render(a: &RenderedDocument, b: &RenderedDocument) {
    assert_eq!(a.title, b.title);
    assert_eq!(a.fields.len(), b.fields.len());
    for (x, y) in a.fields.iter().zip(b.fields.iter()) {
        assert_eq!(x.name, y.name);
        assert_eq!(x.value, y.value);
        assert_eq!(x.inline, y.inline);
    }
}

#[test]
fn rendering_twice_without_mutation_is_identical() {
    let mut doc = Document::new();
    doc.set_title("Report".to_owned());
    doc.append_field("Stat".to_owned(), "42".to_owned());
    let first = doc.render();
    let second = doc.render();
    assert_same_render(&first, &second);
    assert_eq!(first.title, "Report");
    assert_eq!(first.fields.len(), 1);
    assert_eq!(first.fields[0].name, "Stat");
    assert_eq!(first.fields[0].value, "42");
    assert!(!first.fields[0].inline);

    // Rendering a snapshot agrees with rendering the document itself.
    let snap_render = doc.snapshot().render();
    assert_same_render(&first, &snap_render);
}

#[test]
fn render_without_title_uses_empty_string() {
    let mut doc = Document::new();
    doc.append_field("a".to_owned(), "1".to_owned());
    let rendered = doc.render();
    assert_eq!(rendered.title, "");
    assert_eq!(rendered.fields.len(), 1);
}
