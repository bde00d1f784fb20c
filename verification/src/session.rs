//! The interaction-session controller: a state machine that drives the
//! guided document-building dialogue. Each received event is turned into
//! exactly one gateway response (acknowledging that event) plus a list of
//! message edits; the caller performs those against the messaging platform
//! and feeds the next event back in.

use vstd::prelude::*;

use crate::document::Document;
use crate::document::DocumentModel;
use crate::document::FieldModel;
use crate::document::RenderedDocument;
use crate::document::RenderedDocumentModel;
use crate::document::render_model;

verus! {

/// The phase of a session. A session is created in `AwaitingTitleButton`
/// and ends in `Terminated`.
#[derive(Clone, Copy, PartialEq, Eq, Structural, Debug)]
pub enum Phase {
    /// The prompt with the title button is up; waiting for its activation.
    AwaitingTitleButton,
    /// The title form has been requested; waiting (bounded) for its submission.
    AwaitingTitleForm,
    /// The edit loop: add-field and done buttons are live.
    Editing,
    /// The session is over; no further event is accepted.
    Terminated,
}

/// An event produced by the gateway for this session's message. Each event
/// carries an implicit obligation to acknowledge it exactly once; that
/// obligation is the [`ResponseToken`] passed alongside it.
pub enum InteractionEvent {
    /// A button was activated; carries the button's control id.
    ButtonActivated { control_id: String },
    /// A form was submitted; carries the form id and the ordered text
    /// values of its inputs.
    FormSubmitted { form_id: String, field_values: Vec<String> },
}

/// Mathematical model of a session input: an interaction event, or the
/// elapsing of the bounded title-form wait.
#[verifier::ext_equal]
pub ghost enum EventModel {
    Button { control_id: Seq<char> },
    Form { form_id: Seq<char>, values: Seq<Seq<char>> },
    Timeout,
}

impl View for InteractionEvent {
    type V = EventModel;

    open spec fn view(&self) -> EventModel {
        match self {
            InteractionEvent::ButtonActivated { control_id } => EventModel::Button {
                control_id: control_id@,
            },
            InteractionEvent::FormSubmitted { form_id, field_values } => EventModel::Form {
                form_id: form_id@,
                values: field_values.deep_view(),
            },
        }
    }
}

/// The capability to acknowledge one event. It is not `Clone`, so once it
/// has been placed into a [`GatewayResponse`] it cannot acknowledge a
/// second time; the id ties the response back to the event it resolves.
pub struct ResponseToken {
    id: u64,
}

impl View for ResponseToken {
    type V = u64;

    closed spec fn view(&self) -> u64 {
        self.id
    }
}

impl ResponseToken {
    /// Wraps the platform-side identity of one pending acknowledgment.
    pub fn new(id: u64) -> (t: ResponseToken)
        ensures
            t@ == id,
    {
        ResponseToken { id }
    }

    /// The identity of the pending acknowledgment this token resolves.
    pub fn id(&self) -> (i: u64)
        ensures
            i == self@,
    {
        self.id
    }
}

/// One button to expose on a message.
pub struct ButtonSpec {
    pub control_id: String,
    pub label: String,
    /// True for the platform's primary style, false for its success style.
    pub primary: bool,
}

/// Mathematical model of a [`ButtonSpec`].
#[verifier::ext_equal]
pub ghost struct ButtonModel {
    pub control_id: Seq<char>,
    pub label: Seq<char>,
    pub primary: bool,
}

impl View for ButtonSpec {
    type V = ButtonModel;

    open spec fn view(&self) -> ButtonModel {
        ButtonModel { control_id: self.control_id@, label: self.label@, primary: self.primary }
    }
}

impl DeepView for ButtonSpec {
    type V = ButtonModel;

    open spec fn deep_view(&self) -> ButtonModel {
        self@
    }
}

/// One required text input of a form.
pub struct TextInputSpec {
    pub input_id: String,
    pub label: String,
    /// True for a paragraph-style input, false for a single short line.
    pub multiline: bool,
}

/// Mathematical model of a [`TextInputSpec`].
#[verifier::ext_equal]
pub ghost struct TextInputModel {
    pub input_id: Seq<char>,
    pub label: Seq<char>,
    pub multiline: bool,
}

impl View for TextInputSpec {
    type V = TextInputModel;

    open spec fn view(&self) -> TextInputModel {
        TextInputModel { input_id: self.input_id@, label: self.label@, multiline: self.multiline }
    }
}

impl DeepView for TextInputSpec {
    type V = TextInputModel;

    open spec fn deep_view(&self) -> TextInputModel {
        self@
    }
}

/// A pop-up form to request from the platform: an id, a window title and
/// the ordered text inputs, all of them required.
pub struct FormSpec {
    pub form_id: String,
    pub title: String,
    pub inputs: Vec<TextInputSpec>,
}

/// Mathematical model of a [`FormSpec`].
#[verifier::ext_equal]
pub ghost struct FormModel {
    pub form_id: Seq<char>,
    pub title: Seq<char>,
    pub inputs: Seq<TextInputModel>,
}

impl View for FormSpec {
    type V = FormModel;

    open spec fn view(&self) -> FormModel {
        FormModel { form_id: self.form_id@, title: self.title@, inputs: self.inputs.deep_view() }
    }
}

/// The body of the one gateway response owed for an event.
pub enum ResponseBody {
    /// Answer the event by popping up a form.
    ShowForm { form: FormSpec },
    /// Acknowledge the event with no further user-visible change.
    DeferredAck,
    /// Acknowledge the event by updating the originating message in place.
    UpdateMessage {
        /// New message text, or `None` to leave the text as it is.
        content: Option<String>,
        document: RenderedDocument,
        /// True to strip every interactive control from the message.
        clear_controls: bool,
    },
}

/// Mathematical model of a [`ResponseBody`].
#[verifier::ext_equal]
pub ghost enum ResponseBodyModel {
    ShowForm { form: FormModel },
    DeferredAck,
    UpdateMessage {
        content: Option<Seq<char>>,
        document: RenderedDocumentModel,
        clear_controls: bool,
    },
}

impl View for ResponseBody {
    type V = ResponseBodyModel;

    open spec fn view(&self) -> ResponseBodyModel {
        match self {
            ResponseBody::ShowForm { form } => ResponseBodyModel::ShowForm { form: form@ },
            ResponseBody::DeferredAck => ResponseBodyModel::DeferredAck,
            ResponseBody::UpdateMessage { content, document, clear_controls } => {
                ResponseBodyModel::UpdateMessage {
                    content: match content {
                        Some(c) => Some(c@),
                        None => None,
                    },
                    document: document@,
                    clear_controls: *clear_controls,
                }
            },
        }
    }
}

/// The single gateway response that resolves one event: the consumed
/// acknowledgment capability plus what to answer with.
pub struct GatewayResponse {
    pub token: ResponseToken,
    pub body: ResponseBody,
}

/// Mathematical model of a [`GatewayResponse`].
#[verifier::ext_equal]
pub ghost struct ResponseModel {
    pub token_id: u64,
    pub body: ResponseBodyModel,
}

impl View for GatewayResponse {
    type V = ResponseModel;

    open spec fn view(&self) -> ResponseModel {
        ResponseModel { token_id: self.token@, body: self.body@ }
    }
}

/// An edit of the session's message, performed besides (not instead of)
/// the response that acknowledges the event.
pub enum MessageEdit {
    /// Strip every interactive control from the message.
    ClearControls,
    /// Replace text, document and controls of the message.
    ShowDocument { content: String, document: RenderedDocument, buttons: Vec<ButtonSpec> },
}

/// Mathematical model of a [`MessageEdit`].
#[verifier::ext_equal]
pub ghost enum EditModel {
    ClearControls,
    ShowDocument { content: Seq<char>, document: RenderedDocumentModel, buttons: Seq<ButtonModel> },
}

impl View for MessageEdit {
    type V = EditModel;

    open spec fn view(&self) -> EditModel {
        match self {
            MessageEdit::ClearControls => EditModel::ClearControls,
            MessageEdit::ShowDocument { content, document, buttons } => EditModel::ShowDocument {
                content: content@,
                document: document@,
                buttons: buttons.deep_view(),
            },
        }
    }
}

impl DeepView for MessageEdit {
    type V = EditModel;

    open spec fn deep_view(&self) -> EditModel {
        self@
    }
}

/// What one step of the controller asks the caller to do.
pub enum StepOutcome {
    /// The event was expected: perform the edits, then the one response.
    Acted { response: GatewayResponse, edits: Vec<MessageEdit> },
    /// Protocol-invariant violation: the event carries an id this session
    /// never issued, or a form arity it never requested. Unrecoverable;
    /// the session is unchanged and the caller aborts it.
    Fault,
}

/// Mathematical model of a [`StepOutcome`].
#[verifier::ext_equal]
pub ghost enum OutcomeModel {
    Acted { response: ResponseModel, edits: Seq<EditModel> },
    Fault,
}

impl View for StepOutcome {
    type V = OutcomeModel;

    open spec fn view(&self) -> OutcomeModel {
        match self {
            StepOutcome::Acted { response, edits } => OutcomeModel::Acted {
                response: response@,
                edits: edits.deep_view(),
            },
            StepOutcome::Fault => OutcomeModel::Fault,
        }
    }
}

/// The prompt message that opens a session.
pub struct Prompt {
    pub content: String,
    pub buttons: Vec<ButtonSpec>,
}

/// Mathematical model of a [`Prompt`].
#[verifier::ext_equal]
pub ghost struct PromptModel {
    pub content: Seq<char>,
    pub buttons: Seq<ButtonModel>,
}

impl View for Prompt {
    type V = PromptModel;

    open spec fn view(&self) -> PromptModel {
        PromptModel { content: self.content@, buttons: self.buttons.deep_view() }
    }
}

/// Mathematical model of a [`Session`].
#[verifier::ext_equal]
pub ghost struct SessionModel {
    pub target: u64,
    pub document: DocumentModel,
    pub phase: Phase,
}

/// Control id of the button on the opening prompt.
pub open spec fn title_button_id() -> Seq<char> {
    "button_title"@
}

/// Control id of the edit-loop button that requests the field form.
pub open spec fn add_field_button_id() -> Seq<char> {
    "add_field"@
}

/// Control id of the edit-loop button that ends the session.
pub open spec fn done_button_id() -> Seq<char> {
    "done"@
}

/// Form id of the title form.
pub open spec fn title_form_id() -> Seq<char> {
    "modal_1"@
}

/// Form id of the add-field form.
pub open spec fn field_form_id() -> Seq<char> {
    "modal_2"@
}

/// The title form: one required short text input.
pub open spec fn title_form_model() -> FormModel {
    FormModel {
        form_id: title_form_id(),
        title: "Set the title for the embed"@,
        inputs: seq![
            TextInputModel { input_id: "title"@, label: "Embed title"@, multiline: false },
        ],
    }
}

/// The add-field form: a required short name input and a required
/// paragraph content input, in that order.
pub open spec fn field_form_model() -> FormModel {
    FormModel {
        form_id: field_form_id(),
        title: "Add a field to the embed"@,
        inputs: seq![
            TextInputModel { input_id: "field_title"@, label: "Field Title"@, multiline: false },
            TextInputModel {
                input_id: "field_content"@,
                label: "Field Content"@,
                multiline: true,
            },
        ],
    }
}

/// The two buttons live during the edit loop.
pub open spec fn edit_buttons_model() -> Seq<ButtonModel> {
    seq![
        ButtonModel { control_id: add_field_button_id(), label: "Add Field"@, primary: true },
        ButtonModel { control_id: done_button_id(), label: "Done"@, primary: false },
    ]
}

/// The opening prompt: its text and its single title button.
pub open spec fn prompt_model() -> PromptModel {
    PromptModel {
        content: "Create and embed with modals"@,
        buttons: seq![
            ButtonModel { control_id: title_button_id(), label: "Set the title"@, primary: true },
        ],
    }
}

/// A freshly created session: empty document, initial phase.
pub open spec fn fresh_session_model(target: u64) -> SessionModel {
    SessionModel {
        target,
        document: DocumentModel { title: None, fields: Seq::<FieldModel>::empty() },
        phase: Phase::AwaitingTitleButton,
    }
}

/// Whether the session expects this input in its current phase. Anything
/// else is a protocol-invariant violation: an id the controller never
/// issued, a form arity it never requested, or an input after the end.
pub open spec fn accepts(s: SessionModel, e: EventModel) -> bool {
    match s.phase {
        Phase::AwaitingTitleButton => match e {
            EventModel::Button { control_id } => control_id == title_button_id(),
            _ => false,
        },
        Phase::AwaitingTitleForm => match e {
            EventModel::Form { form_id, values } => form_id == title_form_id() && values.len()
                == 1,
            EventModel::Timeout => true,
            _ => false,
        },
        Phase::Editing => match e {
            EventModel::Button { control_id } => control_id == add_field_button_id() || control_id
                == done_button_id(),
            EventModel::Form { form_id, values } => form_id == field_form_id() && values.len()
                == 2,
            EventModel::Timeout => false,
        },
        Phase::Terminated => false,
    }
}

/// The state transition. An input that is not accepted leaves the session
/// exactly as it was.
pub open spec fn step_model(s: SessionModel, e: EventModel) -> SessionModel {
    if accepts(s, e) {
        match s.phase {
            Phase::AwaitingTitleButton => SessionModel { phase: Phase::AwaitingTitleForm, ..s },
            Phase::AwaitingTitleForm => match e {
                EventModel::Form { form_id, values } => SessionModel {
                    document: DocumentModel { title: Some(values[0]), fields: s.document.fields },
                    phase: Phase::Editing,
                    ..s
                },
                _ => SessionModel { phase: Phase::Terminated, ..s },
            },
            Phase::Editing => match e {
                EventModel::Button { control_id } => {
                    if control_id == done_button_id() {
                        SessionModel { phase: Phase::Terminated, ..s }
                    } else {
                        s
                    }
                },
                EventModel::Form { form_id, values } => SessionModel {
                    document: DocumentModel {
                        title: s.document.title,
                        fields: s.document.fields.push(
                            FieldModel { name: values[0], value: values[1], inline: false },
                        ),
                    },
                    ..s
                },
                _ => s,
            },
            Phase::Terminated => s,
        }
    } else {
        s
    }
}

/// The body of the one response owed for an accepted interaction event.
pub open spec fn response_body_model(s: SessionModel, e: EventModel) -> ResponseBodyModel {
    match s.phase {
        Phase::AwaitingTitleButton => ResponseBodyModel::ShowForm { form: title_form_model() },
        Phase::AwaitingTitleForm => ResponseBodyModel::DeferredAck,
        Phase::Editing => match e {
            EventModel::Button { control_id } => {
                if control_id == done_button_id() {
                    ResponseBodyModel::UpdateMessage {
                        content: Some(Seq::<char>::empty()),
                        document: render_model(s.document),
                        clear_controls: true,
                    }
                } else {
                    ResponseBodyModel::ShowForm { form: field_form_model() }
                }
            },
            _ => ResponseBodyModel::UpdateMessage {
                content: None,
                document: render_model(step_model(s, e).document),
                clear_controls: false,
            },
        },
        Phase::Terminated => ResponseBodyModel::DeferredAck,
    }
}

/// The message edits performed besides the response for an accepted
/// interaction event.
pub open spec fn edits_model(s: SessionModel, e: EventModel) -> Seq<EditModel> {
    match s.phase {
        Phase::AwaitingTitleButton => seq![EditModel::ClearControls],
        Phase::AwaitingTitleForm => seq![
            EditModel::ShowDocument {
                content: "Add fields to the"@,
                document: render_model(step_model(s, e).document),
                buttons: edit_buttons_model(),
            },
        ],
        _ => Seq::<EditModel>::empty(),
    }
}

/// What one step yields to the caller: a fault for an unexpected input,
/// else exactly one response, carrying the event's token, plus the edits.
pub open spec fn outcome_model(s: SessionModel, e: EventModel, token_id: u64) -> OutcomeModel {
    if accepts(s, e) && !(e is Timeout) {
        OutcomeModel::Acted {
            response: ResponseModel { token_id, body: response_body_model(s, e) },
            edits: edits_model(s, e),
        }
    } else {
        OutcomeModel::Fault
    }
}

/// One run of the guided dialogue, scoped to one triggering message.
/// Owns the document for the session's lifetime.
pub struct Session {
    target: u64,
    document: Document,
    phase: Phase,
}

impl View for Session {
    type V = SessionModel;

    closed spec fn view(&self) -> SessionModel {
        SessionModel { target: self.target, document: self.document@, phase: self.phase }
    }
}

fn title_form() -> (f: FormSpec)
    ensures
        f@ == title_form_model(),
{
    let mut inputs: Vec<TextInputSpec> = Vec::new();
    inputs.push(
        TextInputSpec {
            input_id: "title".to_owned(),
            label: "Embed title".to_owned(),
            multiline: false,
        },
    );
    let f = FormSpec {
        form_id: "modal_1".to_owned(),
        title: "Set the title for the embed".to_owned(),
        inputs,
    };
    proof {
        assert(f@ =~~= title_form_model());
    }
    f
}

fn field_form() -> (f: FormSpec)
    ensures
        f@ == field_form_model(),
{
    let mut inputs: Vec<TextInputSpec> = Vec::new();
    inputs.push(
        TextInputSpec {
            input_id: "field_title".to_owned(),
            label: "Field Title".to_owned(),
            multiline: false,
        },
    );
    inputs.push(
        TextInputSpec {
            input_id: "field_content".to_owned(),
            label: "Field Content".to_owned(),
            multiline: true,
        },
    );
    let f = FormSpec {
        form_id: "modal_2".to_owned(),
        title: "Add a field to the embed".to_owned(),
        inputs,
    };
    proof {
        assert(f@ =~~= field_form_model());
    }
    f
}

fn edit_buttons() -> (b: Vec<ButtonSpec>)
    ensures
        b.deep_view() == edit_buttons_model(),
{
    let mut buttons: Vec<ButtonSpec> = Vec::new();
    buttons.push(
        ButtonSpec {
            control_id: "add_field".to_owned(),
            label: "Add Field".to_owned(),
            primary: true,
        },
    );
    buttons.push(
        ButtonSpec { control_id: "done".to_owned(), label: "Done".to_owned(), primary: false },
    );
    proof {
        assert(buttons.deep_view() =~~= edit_buttons_model());
    }
    buttons
}

impl Session {
    /// Starts a session for one triggering message: a fresh document in
    /// the initial phase, together with the prompt the caller must send.
    pub fn start(target: u64) -> (r: (Session, Prompt))
        ensures
            r.0@ == fresh_session_model(target),
            r.1@ == prompt_model(),
    {
        let session = Session { target, document: Document::new(), phase: Phase::AwaitingTitleButton };
        let mut buttons: Vec<ButtonSpec> = Vec::new();
        buttons.push(
            ButtonSpec {
                control_id: "button_title".to_owned(),
                label: "Set the title".to_owned(),
                primary: true,
            },
        );
        let prompt = Prompt { content: "Create and embed with modals".to_owned(), buttons };
        proof {
            assert(session@ =~~= fresh_session_model(target));
            assert(prompt@ =~~= prompt_model());
        }
        (session, prompt)
    }

    /// The message this session is scoped to.
    pub fn target(&self) -> (t: u64)
        ensures
            t == self@.target,
    {
        self.target
    }

    /// The session's current phase.
    pub fn phase(&self) -> (p: Phase)
        ensures
            p == self@.phase,
    {
        self.phase
    }

    /// Read access to the document being built.
    pub fn document(&self) -> (d: &Document)
        ensures
            d@ == self@.document,
    {
        &self.document
    }

    /// Processes one interaction event together with its acknowledgment
    /// capability. The session moves exactly as [`step_model`] says, and
    /// the outcome is exactly [`outcome_model`]: a fault for an unexpected
    /// event, else one single response carrying the event's token.
    pub fn step(&mut self, event: InteractionEvent, token: ResponseToken) -> (out: StepOutcome)
        ensures
            final(self)@ == step_model(old(self)@, event@),
            out@ == outcome_model(old(self)@, event@, token@),
    {
        let ghost s0 = self@;
        let ghost ev = event@;
        match self.phase {
            Phase::AwaitingTitleButton => match event {
                InteractionEvent::ButtonActivated { control_id } => {
                    if control_id == "button_title".to_owned() {
                        self.phase = Phase::AwaitingTitleForm;
                        let mut edits: Vec<MessageEdit> = Vec::new();
                        edits.push(MessageEdit::ClearControls);
                        let out = StepOutcome::Acted {
                            response: GatewayResponse {
                                token,
                                body: ResponseBody::ShowForm { form: title_form() },
                            },
                            edits,
                        };
                        proof {
                            assert(self@ =~~= step_model(s0, ev));
                            assert(out@ =~~= outcome_model(s0, ev, token@));
                        }
                        out
                    } else {
                        proof {
                            assert(self@ =~~= step_model(s0, ev));
                        }
                        StepOutcome::Fault
                    }
                },
                _ => {
                    proof {
                        assert(self@ =~~= step_model(s0, ev));
                    }
                    StepOutcome::Fault
                },
            },
            Phase::AwaitingTitleForm => match event {
                InteractionEvent::FormSubmitted { form_id, mut field_values } => {
                    if form_id == "modal_1".to_owned() && field_values.len() == 1 {
                        let title = field_values.remove(0);
                        self.document.set_title(title);
                        self.phase = Phase::Editing;
                        let rendered = self.document.render();
                        let mut edits: Vec<MessageEdit> = Vec::new();
                        edits.push(
                            MessageEdit::ShowDocument {
                                content: "Add fields to the".to_owned(),
                                document: rendered,
                                buttons: edit_buttons(),
                            },
                        );
                        let out = StepOutcome::Acted {
                            response: GatewayResponse { token, body: ResponseBody::DeferredAck },
                            edits,
                        };
                        proof {
                            assert(self@ =~~= step_model(s0, ev));
                            assert(out@ =~~= outcome_model(s0, ev, token@));
                        }
                        out
                    } else {
                        proof {
                            assert(self@ =~~= step_model(s0, ev));
                        }
                        StepOutcome::Fault
                    }
                },
                _ => {
                    proof {
                        assert(self@ =~~= step_model(s0, ev));
                    }
                    StepOutcome::Fault
                },
            },
            Phase::Editing => match event {
                InteractionEvent::ButtonActivated { control_id } => {
                    if control_id == "add_field".to_owned() {
                        let out = StepOutcome::Acted {
                            response: GatewayResponse {
                                token,
                                body: ResponseBody::ShowForm { form: field_form() },
                            },
                            edits: Vec::new(),
                        };
                        proof {
                            reveal_strlit("add_field");
                            reveal_strlit("done");
                            assert("add_field"@.len() == 9);
                            assert("done"@.len() == 4);
                            assert(self@ =~~= step_model(s0, ev));
                            assert(out@ =~~= outcome_model(s0, ev, token@));
                        }
                        out
                    } else if control_id == "done".to_owned() {
                        self.phase = Phase::Terminated;
                        let rendered = self.document.render();
                        let out = StepOutcome::Acted {
                            response: GatewayResponse {
                                token,
                                body: ResponseBody::UpdateMessage {
                                    content: Some(String::new()),
                                    document: rendered,
                                    clear_controls: true,
                                },
                            },
                            edits: Vec::new(),
                        };
                        proof {
                            assert(self@ =~~= step_model(s0, ev));
                            assert(out@ =~~= outcome_model(s0, ev, token@));
                        }
                        out
                    } else {
                        proof {
                            assert(self@ =~~= step_model(s0, ev));
                        }
                        StepOutcome::Fault
                    }
                },
                InteractionEvent::FormSubmitted { form_id, mut field_values } => {
                    if form_id == "modal_2".to_owned() && field_values.len() == 2 {
                        let name = field_values.remove(0);
                        let value = field_values.remove(0);
                        self.document.append_field(name, value);
                        let rendered = self.document.render();
                        let out = StepOutcome::Acted {
                            response: GatewayResponse {
                                token,
                                body: ResponseBody::UpdateMessage {
                                    content: None,
                                    document: rendered,
                                    clear_controls: false,
                                },
                            },
                            edits: Vec::new(),
                        };
                        proof {
                            assert(self@.document.fields =~~= step_model(s0, ev).document.fields);
                            assert(self@ =~~= step_model(s0, ev));
                            assert(out@ =~~= outcome_model(s0, ev, token@));
                        }
                        out
                    } else {
                        proof {
                            assert(self@ =~~= step_model(s0, ev));
                        }
                        StepOutcome::Fault
                    }
                },
            },
            Phase::Terminated => {
                proof {
                    assert(self@ =~~= step_model(s0, ev));
                }
                StepOutcome::Fault
            },
        }
    }

    /// Ends the session after the bounded title-form wait elapsed with no
    /// submission: the document is untouched (no title exists yet), and
    /// the returned notice text is what the caller sends in chat.
    pub fn on_timeout(&mut self) -> (notice: String)
        requires
            old(self)@.phase is AwaitingTitleForm,
        ensures
            final(self)@ == step_model(old(self)@, EventModel::Timeout),
            final(self)@.phase is Terminated,
            final(self)@.document == old(self)@.document,
            notice@ == "Timed out"@,
    {
        self.phase = Phase::Terminated;
        "Timed out".to_owned()
    }
}

} // verus!
