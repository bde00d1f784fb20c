//! A guided, multi-step document-building dialogue driven by asynchronous
//! user-interface events from a remote messaging platform.
//!
//! The library is the interaction-session controller: a state machine that
//! drives a strict ordered sequence of one-shot interactions (button, form,
//! edit loop, terminal button), maintains the document being built, and
//! applies timeout and cancellation policy. All network traffic is left to
//! the caller, which performs the gateway actions this library decides on
//! and feeds the resulting events back in.

pub mod document;
pub mod laws;
pub mod mux;
pub mod session;

pub use document::Document;
pub use document::Field;
pub use document::RenderedDocument;
pub use document::RenderedField;
pub use session::ButtonSpec;
pub use session::FormSpec;
pub use session::GatewayResponse;
pub use session::InteractionEvent;
pub use session::MessageEdit;
pub use session::Phase;
pub use session::Prompt;
pub use session::ResponseBody;
pub use session::ResponseToken;
pub use session::Session;
pub use session::StepOutcome;
pub use session::TextInputSpec;
pub use mux::EventSource;
pub use mux::StampedEvent;
pub use mux::WaitOutcome;
