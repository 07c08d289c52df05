use vstd::prelude::*;

use crate::chat_type::{type_of_tag, user_selectable, ChatType, ComposeError};

verus! {

/// Seconds since the Unix epoch of the instant that an RFC 3339 timestamp
/// names, or `None` where the text is not such a timestamp.
pub uninterp spec fn utc_seconds_of(s: Seq<char>) -> Option<i64>;

/// The `YYYY-MM-DD HH:MM` text of an instant seen at a fixed offset from UTC,
/// or `None` where the instant or the offset is out of range.
pub uninterp spec fn minute_text_at(secs: i64, offset: i32) -> Option<Seq<char>>;

/// Whether `secs` seconds since the Unix epoch lies within the instants chrono
/// represents: from the first second of year -262143 to the last of 262142.
pub open spec fn in_chrono_range(secs: i64) -> bool {
    -8334601315200 <= secs <= 8210266876799
}

/// Relies on chrono's `FromStr for DateTime<Utc>` and `DateTime::timestamp`:
/// the instant a timestamp with an offset names, in whole seconds. Every
/// `DateTime<Utc>` lies between `DateTime::MIN_UTC` and `DateTime::MAX_UTC`.
#[verifier::external_body]
fn parse_utc_seconds(s: &str) -> (r: Option<i64>)
    ensures
        r == utc_seconds_of(s@),
        r matches Some(secs) ==> in_chrono_range(secs),
{
    s.parse::<chrono::DateTime<chrono::Utc>>().ok().map(|d| d.timestamp())
}

/// Relies on chrono's `DateTime::from_timestamp`, which accepts every instant
/// chrono represents, and on the `Local` time zone, which gives an offset for
/// every instant: the viewer's offset from UTC at that instant, in seconds.
/// chrono keeps every offset strictly within one day.
#[verifier::external_body]
fn local_offset_at(secs: i64) -> (r: Option<i32>)
    ensures
        r matches Some(o) ==> -86400 < o < 86400,
        in_chrono_range(secs) ==> r is Some,
{
    let utc = chrono::DateTime::from_timestamp(secs, 0)?;
    let offset = chrono::TimeZone::offset_from_utc_datetime(&chrono::Local, &utc.naive_utc());
    Some(offset.local_minus_utc())
}

/// Relies on chrono's `DateTime::from_timestamp`, `FixedOffset::east_opt` and
/// `format("%Y-%m-%d %H:%M")`: the minute an instant falls in at an offset.
/// `east_opt` refuses an offset of a whole day or more and accepts any other;
/// `from_timestamp` accepts every instant chrono represents.
#[verifier::external_body]
fn format_minute_at(secs: i64, offset: i32) -> (r: Option<String>)
    ensures
        match r {
            Some(t) => minute_text_at(secs, offset) == Some(t@),
            None => minute_text_at(secs, offset) is None,
        },
        !(-86400 < offset < 86400) ==> r is None,
        in_chrono_range(secs) && -86400 < offset < 86400 ==> r is Some,
{
    let utc = chrono::DateTime::from_timestamp(secs, 0)?;
    let zone = chrono::FixedOffset::east_opt(offset)?;
    Some(utc.with_timezone(&zone).format("%Y-%m-%d %H:%M").to_string())
}

/// The text shown for timestamp `ts` seen at `offset` seconds east of UTC:
/// its minute, or "N/A" where it cannot be read.
pub open spec fn timestamp_text_at(ts: Seq<char>, offset: i32) -> Seq<char> {
    match utc_seconds_of(ts) {
        Some(secs) => match minute_text_at(secs, offset) {
            Some(t) => t,
            None => "N/A"@,
        },
        None => "N/A"@,
    }
}

/// Whether `r` is what the viewer may be shown for timestamp `ts`: "N/A" where
/// it does not parse, else its minute at some offset within a day (the
/// viewer's own, which only the machine knows).
pub open spec fn is_local_timestamp_text(ts: Seq<char>, r: Seq<char>) -> bool {
    match utc_seconds_of(ts) {
        None => r == "N/A"@,
        Some(secs) => exists|o: i32|
            -86400 < o < 86400 && #[trigger] minute_text_at(secs, o) == Some(r),
    }
}

/// One message of the chat log, as the server sends it.
#[derive(Debug, PartialEq, Eq, Hash)]
pub struct ChatMessage {
    /// RFC 3339 timestamp with an offset.
    pub timestamp: String,
    pub chat_type: ChatType,
    /// May be empty.
    pub sender_name: String,
    pub text: String,
}

/// One message as it stands on the wire, its chat type still a raw tag.
#[derive(Clone, Debug, PartialEq, Eq)]
pub struct WireMessage {
    pub timestamp: String,
    pub chat_type: String,
    pub sender_name: String,
    pub text: String,
}

/// The message that decoding `w` gives.
pub open spec fn message_of_wire(w: WireMessage) -> ChatMessage {
    ChatMessage {
        timestamp: w.timestamp,
        chat_type: type_of_tag(w.chat_type),
        sender_name: w.sender_name,
        text: w.text,
    }
}

impl ChatMessage {
    /// The timestamp in the viewer's zone as `YYYY-MM-DD HH:MM`, or "N/A"
    /// where it cannot be read.
    pub fn formatted_timestamp(&self) -> (r: String)
        ensures
            is_local_timestamp_text(self.timestamp@, r@),
    {
        match parse_utc_seconds(self.timestamp.as_str()) {
            None => "N/A".to_owned(),
            Some(secs) => match local_offset_at(secs) {
                None => "N/A".to_owned(),
                Some(offset) => match format_minute_at(secs, offset) {
                    Some(t) => {
                        assert(-86400 < offset < 86400 && minute_text_at(secs, offset) == Some(t@));
                        t
                    },
                    None => "N/A".to_owned(),
                },
            },
        }
    }

    /// The timestamp seen at `offset` seconds east of UTC, as
    /// `YYYY-MM-DD HH:MM`, or "N/A" where it cannot be read.
    pub fn formatted_timestamp_at(&self, offset: i32) -> (r: String)
        ensures
            r@ == timestamp_text_at(self.timestamp@, offset),
    {
        match parse_utc_seconds(self.timestamp.as_str()) {
            None => "N/A".to_owned(),
            Some(secs) => match format_minute_at(secs, offset) {
                Some(t) => t,
                None => "N/A".to_owned(),
            },
        }
    }

    /// Decodes a wire message; an unknown chat-type tag is kept, never refused.
    pub fn from_wire(w: &WireMessage) -> (r: ChatMessage)
        ensures
            r == message_of_wire(*w),
    {
        ChatMessage {
            timestamp: w.timestamp.clone(),
            chat_type: ChatType::from_tag(w.chat_type.clone()),
            sender_name: w.sender_name.clone(),
            text: w.text.clone(),
        }
    }

    /// A copy of this message.
    pub fn duplicate(&self) -> (r: ChatMessage)
        ensures
            r == *self,
    {
        ChatMessage {
            timestamp: self.timestamp.clone(),
            chat_type: self.chat_type.duplicate(),
            sender_name: self.sender_name.clone(),
            text: self.text.clone(),
        }
    }
}

/// Decodes a batch of wire messages one by one, in order: a message with an
/// unknown chat type neither fails nor disturbs its neighbours.
pub fn decode_messages(batch: &Vec<WireMessage>) -> (r: Vec<ChatMessage>)
    ensures
        r@.len() == batch@.len(),
        forall|i: int| 0 <= i < batch@.len() ==> r@[i] == message_of_wire(#[trigger] batch@[i]),
{
    let mut out: Vec<ChatMessage> = Vec::new();
    let mut i: usize = 0;
    while i < batch.len()
        invariant
            i <= batch@.len(),
            out@.len() == i,
            forall|j: int| 0 <= j < i ==> out@[j] == message_of_wire(#[trigger] batch@[j]),
        decreases batch@.len() - i,
    {
        out.push(ChatMessage::from_wire(&batch[i]));
        i = i + 1;
    }
    out
}

/// A message the user wants to send.
#[derive(Debug, PartialEq, Eq)]
pub struct NewMessageRequest {
    /// One of the chat types a user may send on.
    pub chat_type: ChatType,
    pub text: String,
}

/// What reading a compose form with fields `chat_type` and `text` gives.
pub open spec fn request_of_fields(chat_type: Option<String>, text: Option<String>) -> Result<
    NewMessageRequest,
    ComposeError,
> {
    match chat_type {
        None => Err(ComposeError::MissingChatType),
        Some(v) => match user_selectable(v@) {
            None => Err(ComposeError::UnsupportedChatType(v)),
            Some(c) => match text {
                None => Err(ComposeError::MissingText),
                Some(t) => Ok(NewMessageRequest { chat_type: c, text: t }),
            },
        },
    }
}

impl NewMessageRequest {
    /// Builds a request from the compose form's fields: the chat type is read
    /// first, then the text; a missing or unsupported value is refused.
    pub fn try_from_fields(chat_type: Option<String>, text: Option<String>) -> (r: Result<
        NewMessageRequest,
        ComposeError,
    >)
        ensures
            r == request_of_fields(chat_type, text),
    {
        let value = match chat_type {
            None => return Err(ComposeError::MissingChatType),
            Some(v) => v,
        };
        let chat_type = match ChatType::parse_user_selectable(value) {
            Ok(c) => c,
            Err(e) => return Err(e),
        };
        match text {
            None => Err(ComposeError::MissingText),
            Some(text) => Ok(NewMessageRequest { chat_type, text }),
        }
    }

    /// A copy of this request.
    pub fn duplicate(&self) -> (r: NewMessageRequest)
        ensures
            r == *self,
    {
        NewMessageRequest { chat_type: self.chat_type.duplicate(), text: self.text.clone() }
    }
}

} // verus!
