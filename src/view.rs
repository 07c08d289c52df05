//! What the chat box shows: the error banner, the refresh switch and the
//! messages, most recent first.
use vstd::prelude::*;
use vstd::string::*;

use crate::chat_type::{color_of, label_of};
use crate::models::{is_local_timestamp_text, ChatMessage};
use crate::sync::{ChatBoxComponent, FetchState};
use crate::transport::ErrorMessage;

verus! {

/// One message as displayed, every part already as text.
#[derive(Debug, PartialEq, Eq)]
pub struct ChatLine {
    /// Key that tells the lines apart: timestamp and sender.
    pub key: String,
    /// The timestamp in brackets.
    pub timestamp: String,
    /// The chat type's label in brackets.
    pub label: String,
    /// The sender followed by a colon; absent where the sender is empty.
    pub sender: Option<String>,
    /// The color of the label, sender and text.
    pub color: String,
    pub text: String,
}

/// The whole display of the chat box.
#[derive(Debug, PartialEq, Eq)]
pub struct ChatView {
    /// The error of the last failed fetch or send, if that is the snapshot.
    pub error: Option<ErrorMessage>,
    pub refresh_enabled: bool,
    /// The messages, most recent first.
    pub lines: Vec<ChatLine>,
}

/// Whether `l` displays message `m`.
pub open spec fn shows(l: ChatLine, m: ChatMessage) -> bool {
    &&& l.key@ == m.timestamp@ + "_"@ + m.sender_name@
    &&& l.timestamp@.len() >= 2
    &&& l.timestamp@ == "["@ + l.timestamp@.subrange(1, l.timestamp@.len() - 1) + "]"@
    &&& is_local_timestamp_text(m.timestamp@, l.timestamp@.subrange(1, l.timestamp@.len() - 1))
    &&& l.label@ == "["@ + label_of(m.chat_type) + "]"@
    &&& (m.sender_name@.len() == 0 ==> l.sender is None)
    &&& (m.sender_name@.len() > 0 ==> (l.sender matches Some(s) && s@ == m.sender_name@ + ":"@))
    &&& l.color@ == color_of(m.chat_type)
    &&& l.text@ == m.text@
}

/// Wraps a text in square brackets.
fn bracketed(s: &str) -> (r: String)
    ensures
        r@ == "["@ + s@ + "]"@,
{
    "[".to_owned().concat(s).concat("]")
}

/// The display line of one message.
pub fn line_of(m: &ChatMessage) -> (r: ChatLine)
    ensures
        shows(r, *m),
{
    let stamp = m.formatted_timestamp();
    let timestamp = bracketed(stamp.as_str());
    proof {
        reveal_strlit("[");
        reveal_strlit("]");
        assert(timestamp@.subrange(1, timestamp@.len() - 1) =~= stamp@);
    }
    let sender = if m.sender_name.as_str().is_empty() {
        None
    } else {
        Some(m.sender_name.clone().concat(":"))
    };
    ChatLine {
        key: m.timestamp.clone().concat("_").concat(m.sender_name.as_str()),
        timestamp,
        label: bracketed(m.chat_type.label()),
        sender,
        color: m.chat_type.get_color(),
        text: m.text.clone(),
    }
}

/// The display lines of `messages`, most recent (last received) first.
pub fn lines_of(messages: &Vec<ChatMessage>) -> (r: Vec<ChatLine>)
    ensures
        r@.len() == messages@.len(),
        forall|i: int|
            0 <= i < r@.len() ==> shows(#[trigger] r@[i], messages@[messages@.len() - 1 - i]),
{
    let n = messages.len();
    let mut out: Vec<ChatLine> = Vec::new();
    let mut i: usize = 0;
    while i < n
        invariant
            n == messages@.len(),
            i <= n,
            out@.len() == i,
            forall|j: int| 0 <= j < i ==> shows(#[trigger] out@[j], messages@[n - 1 - j]),
        decreases n - i,
    {
        out.push(line_of(&messages[n - 1 - i]));
        i = i + 1;
    }
    out
}

impl ChatBoxComponent {
    /// What to display: on a failed snapshot its error and no messages, else
    /// the messages most recent first; and the state of the refresh switch.
    pub fn view(&self) -> (r: ChatView)
        ensures
            r.refresh_enabled == self.flags().enabled,
            match self.spec_fetch_state() {
                FetchState::Error(e) => r.error == Some(e) && r.lines@.len() == 0,
                FetchState::Success(v) => {
                    &&& r.error is None
                    &&& r.lines@.len() == v@.len()
                    &&& forall|i: int|
                        0 <= i < v@.len() ==> shows(#[trigger] r.lines@[i], v@[v@.len() - 1 - i])
                },
            },
    {
        let refresh_enabled = self.state().refresh_enabled;
        match self.fetch_state() {
            FetchState::Error(e) => ChatView {
                error: Some(e.duplicate()),
                refresh_enabled,
                lines: Vec::new(),
            },
            FetchState::Success(v) => ChatView { error: None, refresh_enabled, lines: lines_of(v) },
        }
    }
}

} // verus!
