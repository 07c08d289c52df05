//! Synchronisation core of a browser chat mirror: the chat-type taxonomy,
//! the message model and the fetch/refresh state machine.
pub mod chat_type;
pub mod models;
pub mod scheduling;
pub mod sync;
pub mod transport;
pub mod view;

pub use chat_type::{ChatType, ComposeError};
pub use models::{decode_messages, ChatMessage, NewMessageRequest, WireMessage};
pub use sync::{ChatBoxComponent, Effects, FetchState, Msg, State, Timing};
pub use transport::{fetch_status, messages_url, send_status, ErrorMessage, Request};
pub use view::{ChatLine, ChatView};
