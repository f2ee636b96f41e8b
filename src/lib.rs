//! A broadcast relay: a hub that keeps the set of connected sessions and the
//! last published message, fans every published message out to each session's
//! outbound queue, and a per-connection session state machine.
pub mod api_key;
pub mod hub;
pub mod message;
pub mod session;
mod text;
pub mod upload;

pub use api_key::{ApiKey, ApiKeyMiddleware};
pub use hub::{AppState, RegisterClient, UnregisterClient};
pub use upload::{Media, Upload, UploadError};
pub use session::{MyWs, SessionAction, SessionEvent, SessionState};
pub use message::{BroadcastMessage, GenericResponse, MessageType, ResponseValue};
