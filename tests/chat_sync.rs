use xiv_chat_ui::models::decode_messages;
use xiv_chat_ui::sync::{REFRESH_TIME_SEC, SETTLE_TIME_SEC};
use xiv_chat_ui::transport::{decimal_text, url};
use xiv_chat_ui::{
    fetch_status, messages_url, send_status, ChatBoxComponent, ChatMessage, ChatType, ComposeError,
    ErrorMessage, FetchState, Msg, NewMessageRequest, Request, Timing, WireMessage,
};

const TIMESTAMP: &str = "2024-07-14T10:18:02.8379913+02:00";

fn message(timestamp: &str, tag: &str, sender: &str, text: &str) -> ChatMessage {
    ChatMessage {
        timestamp: timestamp.to_owned(),
        chat_type: ChatType::from_tag(tag.to_owned()),
        sender_name: sender.to_owned(),
        text: text.to_owned(),
    }
}

fn wire(tag: &str, text: &str) -> WireMessage {
    WireMessage {
        timestamp: TIMESTAMP.to_owned(),
        chat_type: tag.to_owned(),
        sender_name: "Someone".to_owned(),
        text: text.to_owned(),
    }
}

fn error(description: &str) -> ErrorMessage {
    ErrorMessage { description: description.to_owned(), details: Some("detail".to_owned()) }
}

fn texts(state: &FetchState) -> Vec<String> {
    match state {
        FetchState::Success(v) => v.iter().map(|m| m.text.clone()).collect(),
        FetchState::Error(_) => panic!("expected messages"),
    }
}

// The timestamp seen from a zone at +02:00, its own offset.
#[test]
fn test_timestamp() {
    let message = ChatMessage {
        timestamp: TIMESTAMP.to_owned(),
        chat_type: ChatType::Say,
        sender_name: "none".to_owned(),
        text: "test".to_owned(),
    };

    let formatted = message.formatted_timestamp_at(2 * 3600);
    println!("{formatted}");
    assert_eq!(formatted, "2024-07-14 10:18")
}

#[test]
fn timestamp_at_utc_and_other_offsets() {
    let m = message(TIMESTAMP, "say", "a", "b");
    assert_eq!(m.formatted_timestamp_at(0), "2024-07-14 08:18");
    assert_eq!(m.formatted_timestamp_at(-9 * 3600), "2024-07-13 23:18");
    assert_eq!(m.formatted_timestamp_at(86400), "N/A");
}

#[test]
fn unparsable_timestamp_is_not_available() {
    let m = message("garbage", "say", "a", "b");
    assert_eq!(m.formatted_timestamp(), "N/A");
    assert_eq!(m.formatted_timestamp_at(7200), "N/A");
}

#[test]
fn local_timestamp_has_minute_shape() {
    let m = message(TIMESTAMP, "say", "a", "b");
    let first = m.formatted_timestamp();
    assert_eq!(first.len(), 16);
    assert!(first.starts_with("2024-07-1"));
    assert_eq!(m.formatted_timestamp(), first);
}

#[test]
fn known_tags_decode() {
    assert_eq!(ChatType::from_tag("say".to_owned()), ChatType::Say);
    assert_eq!(ChatType::from_tag("freeCompany".to_owned()), ChatType::FreeCompany);
    assert_eq!(ChatType::from_tag("ls3".to_owned()), ChatType::LinkShell3);
    assert_eq!(ChatType::from_tag("crossLinkShell8".to_owned()), ChatType::CrossLinkShell8);
    assert_eq!(ChatType::from_tag("npcDialogue".to_owned()), ChatType::NPCDialogue);
    assert_eq!(ChatType::from_tag("none".to_owned()), ChatType::Unset);
    assert_eq!(ChatType::from_tag("LinkShell3".to_owned()), ChatType::Unimplemented("LinkShell3".to_owned()));
}

#[test]
fn tags_round_trip() {
    for c in [ChatType::Say, ChatType::LinkShell1, ChatType::CrossLinkShell4, ChatType::RetainerSale, ChatType::Unset] {
        assert_eq!(ChatType::from_tag(c.tag()), c);
    }
    assert_eq!(ChatType::LinkShell7.tag(), "ls7");
    assert_eq!(ChatType::NPCDialogueAnnouncements.tag(), "npcDialogueAnnouncements");
    assert_eq!(ChatType::Unimplemented("odd".to_owned()).tag(), "odd");
}

#[test]
fn unknown_tag_falls_back() {
    let c = ChatType::from_tag("totallyUnknownTag".to_owned());
    assert_eq!(c, ChatType::Unimplemented("totallyUnknownTag".to_owned()));
    assert_eq!(c.label(), "Unknown");
    assert_eq!(c.get_color(), "#FFFFFFFF");
}

#[test]
fn unknown_tag_keeps_its_neighbours() {
    let batch = vec![wire("say", "one"), wire("totallyUnknownTag", "two"), wire("ls2", "three")];
    let decoded = decode_messages(&batch);
    assert_eq!(decoded.len(), 3);
    assert_eq!(decoded[0].chat_type, ChatType::Say);
    assert_eq!(decoded[1].chat_type, ChatType::Unimplemented("totallyUnknownTag".to_owned()));
    assert_eq!(decoded[1].text, "two");
    assert_eq!(decoded[2].chat_type, ChatType::LinkShell2);
    assert_eq!(decoded[2].sender_name, "Someone");
}

#[test]
fn labels() {
    assert_eq!(ChatType::Unset.label(), "");
    assert_eq!(ChatType::Debug.label(), "DBG");
    assert_eq!(ChatType::TellOutgoing.label(), "Tell>");
    assert_eq!(ChatType::TellIncoming.label(), "Tell<");
    assert_eq!(ChatType::CrossParty.label(), "Party");
    assert_eq!(ChatType::LinkShell5.label(), "LS5");
    assert_eq!(ChatType::CrossLinkShell2.label(), "CWLS2");
    assert_eq!(ChatType::SystemError.label(), "Error(System)");
    assert_eq!(ChatType::NPCDialogueAnnouncements.label(), "NPC");
    assert_eq!(ChatType::FreeCompany.label(), "FC");
}

#[test]
fn colors_by_family() {
    assert_eq!(ChatType::Yell.get_color(), "#fcfc03");
    assert_eq!(ChatType::Shout.get_color(), "#ffce63");
    assert_eq!(ChatType::TellIncoming.get_color(), "#f263ff");
    assert_eq!(ChatType::TellOutgoing.get_color(), "#f263ff");
    assert_eq!(ChatType::Alliance.get_color(), "#ed9511");
    assert_eq!(ChatType::FreeCompany.get_color(), "#4ef542");
    assert_eq!(ChatType::Party.get_color(), "#426ff5");
    assert_eq!(ChatType::NoviceNetwork.get_color(), "#cfe05c");
    assert_eq!(ChatType::StandardEmote.get_color(), "#e1faf9");
    assert_eq!(ChatType::CustomEmote.get_color(), "#e1faf9");
    assert_eq!(ChatType::NPCDialogue.get_color(), "#6ead10");
    assert_eq!(ChatType::Say.get_color(), "#FFFFFFFF");
    assert_eq!(ChatType::CrossParty.get_color(), "#FFFFFFFF");
    for ls in [ChatType::LinkShell1, ChatType::LinkShell4, ChatType::LinkShell8] {
        assert_eq!(ls.get_color(), "#fad2b9");
    }
    for cwls in [ChatType::CrossLinkShell1, ChatType::CrossLinkShell6, ChatType::CrossLinkShell8] {
        assert_eq!(cwls.get_color(), "#9f3cbd");
    }
}

#[test]
fn ordinals_follow_declaration() {
    assert_eq!(ChatType::Unset.ordinal(), 0);
    assert_eq!(ChatType::LinkShell1.ordinal() + 7, ChatType::LinkShell8.ordinal());
    assert_eq!(ChatType::CrossLinkShell1.ordinal() + 7, ChatType::CrossLinkShell8.ordinal());
    assert!(ChatType::Unimplemented(String::new()).ordinal() > ChatType::RetainerSale.ordinal());
}

#[test]
fn user_selectable_types() {
    assert_eq!(ChatType::parse_user_selectable("Say".to_owned()), Ok(ChatType::Say));
    assert_eq!(ChatType::parse_user_selectable("Shout".to_owned()), Ok(ChatType::Shout));
    assert_eq!(ChatType::parse_user_selectable("Yell".to_owned()), Ok(ChatType::Yell));
    assert_eq!(ChatType::parse_user_selectable("Party".to_owned()), Ok(ChatType::Party));
    assert_eq!(ChatType::parse_user_selectable("FC".to_owned()), Ok(ChatType::FreeCompany));
    assert_eq!(ChatType::parse_user_selectable("say".to_owned()), Err(ComposeError::UnsupportedChatType("say".to_owned())));
}

#[test]
fn emote_is_refused_and_changes_nothing() {
    let refused = ChatType::parse_user_selectable("Emote".to_owned());
    assert_eq!(refused, Err(ComposeError::UnsupportedChatType("Emote".to_owned())));

    let mut chat = ChatBoxComponent::create();
    chat.update(Msg::GetMessages);
    chat.update(Msg::SetFetchState(Ok(vec![message(TIMESTAMP, "say", "a", "A")])));
    let pending = chat.refresh_pending();
    let request = NewMessageRequest::try_from_fields(Some("Emote".to_owned()), Some("hi".to_owned()));
    let effects = chat.update(Msg::SubmitMessage(request));
    assert_eq!(effects.report, Some(ComposeError::UnsupportedChatType("Emote".to_owned())));
    assert!(effects.send.is_none() && !effects.fetch && effects.refresh_after.is_none() && !effects.render);
    assert_eq!(texts(chat.fetch_state()), vec!["A".to_owned()]);
    assert_eq!(chat.refresh_pending(), pending);
    assert!(chat.state().refresh_enabled);
}

#[test]
fn compose_form_fields() {
    assert_eq!(
        NewMessageRequest::try_from_fields(Some("FC".to_owned()), Some("hello".to_owned())),
        Ok(NewMessageRequest { chat_type: ChatType::FreeCompany, text: "hello".to_owned() })
    );
    assert_eq!(NewMessageRequest::try_from_fields(None, Some("x".to_owned())), Err(ComposeError::MissingChatType));
    assert_eq!(NewMessageRequest::try_from_fields(Some("Say".to_owned()), None), Err(ComposeError::MissingText));
    assert_eq!(
        NewMessageRequest::try_from_fields(Some("Tell".to_owned()), None),
        Err(ComposeError::UnsupportedChatType("Tell".to_owned()))
    );
}

#[test]
fn second_fetch_request_is_ignored_while_fetching() {
    let mut chat = ChatBoxComponent::create();
    assert!(chat.update(Msg::GetMessages).fetch);
    assert!(chat.is_fetching());
    assert!(!chat.update(Msg::GetMessages).fetch);
    assert!(!chat.update(Msg::RefreshDue).fetch);
    chat.update(Msg::SetFetchState(Ok(Vec::new())));
    assert!(!chat.is_fetching());
    assert!(chat.update(Msg::GetMessages).fetch);
}

#[test]
fn only_one_refresh_timer_is_armed() {
    let mut chat = ChatBoxComponent::create();
    chat.update(Msg::GetMessages);
    let done = chat.update(Msg::SetFetchState(Ok(Vec::new())));
    assert_eq!(done.refresh_after, Some(REFRESH_TIME_SEC));
    assert!(chat.refresh_pending());
    // off and on again: the armed timer still stands, no second one
    assert_eq!(chat.update(Msg::ToggleRefresh).refresh_after, None);
    assert!(!chat.state().refresh_enabled);
    assert_eq!(chat.update(Msg::ToggleRefresh).refresh_after, None);
    assert!(chat.refresh_pending());
    // the timer fires: a fetch starts and the flag clears
    let fired = chat.update(Msg::RefreshDue);
    assert!(fired.fetch);
    assert!(!chat.refresh_pending());
    assert_eq!(chat.update(Msg::SetFetchState(Err(error("down")))).refresh_after, Some(REFRESH_TIME_SEC));
    assert_eq!(chat.update(Msg::SetFetchState(Ok(Vec::new()))).refresh_after, None);
}

#[test]
fn enabling_refresh_arms_a_timer() {
    let mut chat = ChatBoxComponent::create();
    assert_eq!(chat.update(Msg::ToggleRefresh).refresh_after, None);
    chat.update(Msg::GetMessages);
    assert_eq!(chat.update(Msg::SetFetchState(Ok(Vec::new()))).refresh_after, None);
    assert!(!chat.refresh_pending());
    assert_eq!(chat.update(Msg::ToggleRefresh).refresh_after, Some(REFRESH_TIME_SEC));
    assert!(chat.refresh_pending());
}

#[test]
fn timer_firing_during_fetch_clears_pending() {
    let mut chat = ChatBoxComponent::create();
    chat.update(Msg::ToggleRefresh);
    chat.update(Msg::GetMessages);
    assert_eq!(chat.update(Msg::ToggleRefresh).refresh_after, Some(REFRESH_TIME_SEC));
    let fired = chat.update(Msg::RefreshDue);
    assert!(!fired.fetch);
    assert!(!chat.refresh_pending());
    assert_eq!(chat.update(Msg::SetFetchState(Ok(Vec::new()))).refresh_after, Some(REFRESH_TIME_SEC));
}

#[test]
fn snapshot_is_replaced_not_merged() {
    let mut chat = ChatBoxComponent::create();
    chat.update(Msg::GetMessages);
    let r = chat.update(Msg::SetFetchState(Ok(vec![message(TIMESTAMP, "say", "a", "A"), message(TIMESTAMP, "say", "b", "B")])));
    assert!(r.render);
    assert_eq!(texts(chat.fetch_state()), vec!["A".to_owned(), "B".to_owned()]);
    chat.update(Msg::GetMessages);
    chat.update(Msg::SetFetchState(Ok(vec![message(TIMESTAMP, "say", "c", "C")])));
    assert_eq!(texts(chat.fetch_state()), vec!["C".to_owned()]);
    chat.update(Msg::GetMessages);
    chat.update(Msg::SetFetchState(Err(error("down"))));
    assert_eq!(chat.fetch_state(), &FetchState::Error(error("down")));
}

#[test]
fn submit_then_refresh_after_settle() {
    let mut chat = ChatBoxComponent::create();
    let request = NewMessageRequest { chat_type: ChatType::Say, text: "hi".to_owned() };
    let submitted = chat.update(Msg::SubmitMessage(Ok(request.duplicate())));
    assert_eq!(submitted.send, Some(request));
    assert!(!submitted.fetch && submitted.fetch_after.is_none());
    let sent = chat.update(Msg::MessageSent(Ok(())));
    assert_eq!(sent.fetch_after, Some(SETTLE_TIME_SEC));
    assert!(!sent.fetch && sent.refresh_after.is_none() && sent.send.is_none());
    assert!(chat.update(Msg::GetMessages).fetch);
}

#[test]
fn failed_send_replaces_snapshot_only() {
    let mut chat = ChatBoxComponent::with_timing(Timing { refresh_secs: 10, settle_secs: 2 });
    chat.update(Msg::GetMessages);
    let failed = chat.update(Msg::MessageSent(Err(error("Bad request: no"))));
    assert!(failed.render && failed.fetch_after.is_none() && failed.refresh_after.is_none());
    assert_eq!(chat.fetch_state(), &FetchState::Error(error("Bad request: no")));
    assert!(chat.is_fetching());
    assert!(!chat.refresh_pending());
    assert_eq!(chat.update(Msg::SetFetchState(Ok(Vec::new()))).refresh_after, Some(10));
    assert_eq!(chat.update(Msg::MessageSent(Ok(()))).fetch_after, Some(2));
}

#[test]
fn nothing_does_nothing() {
    let mut chat = ChatBoxComponent::create();
    let r = chat.update(Msg::Nothing);
    assert!(!r.fetch && !r.render && r.refresh_after.is_none() && r.send.is_none() && r.report.is_none());
    assert_eq!(chat.timing(), Timing { refresh_secs: 3, settle_secs: 1 });
}

#[test]
fn view_shows_most_recent_first() {
    let mut chat = ChatBoxComponent::create();
    chat.update(Msg::GetMessages);
    chat.update(Msg::SetFetchState(Ok(vec![
        message(TIMESTAMP, "ls1", "Alice", "first"),
        message("garbage", "echo", "", "second"),
    ])));
    let view = chat.view();
    assert!(view.error.is_none());
    assert!(view.refresh_enabled);
    assert_eq!(view.lines.len(), 2);
    let top = &view.lines[0];
    assert_eq!(top.text, "second");
    assert_eq!(top.timestamp, "[N/A]");
    assert_eq!(top.label, "[Echo]");
    assert_eq!(top.sender, None);
    assert_eq!(top.key, "garbage_");
    let bottom = &view.lines[1];
    assert_eq!(bottom.text, "first");
    assert_eq!(bottom.label, "[LS1]");
    assert_eq!(bottom.sender, Some("Alice:".to_owned()));
    assert_eq!(bottom.color, "#fad2b9");
    assert_eq!(bottom.key, format!("{TIMESTAMP}_Alice"));
    assert_eq!(bottom.timestamp.len(), 18);
}

#[test]
fn view_of_error_shows_banner() {
    let mut chat = ChatBoxComponent::create();
    chat.update(Msg::ToggleRefresh);
    chat.update(Msg::GetMessages);
    chat.update(Msg::SetFetchState(Err(error("HTTP Error: 500 Internal Server Error"))));
    let view = chat.view();
    assert_eq!(view.error, Some(error("HTTP Error: 500 Internal Server Error")));
    assert!(view.lines.is_empty());
    assert!(!view.refresh_enabled);
}

#[test]
fn endpoint_address() {
    assert_eq!(messages_url(Some("http://host:1/".to_owned())), "http://host:1/messages");
    assert_eq!(messages_url(Some("http://host:1".to_owned())), "http://host:1/messages");
    assert_eq!(messages_url(None), "http://localhost:9876/messages");
    assert_eq!(messages_url(Some(String::new())), "/messages");
}

#[test]
fn fetch_status_classes() {
    assert_eq!(fetch_status(200, "200 OK".to_owned(), None), Ok(()));
    assert_eq!(fetch_status(299, "299".to_owned(), None), Ok(()));
    assert_eq!(
        fetch_status(404, "404 Not Found".to_owned(), Some("missing".to_owned())),
        Err(ErrorMessage { description: "HTTP Error: 404 Not Found".to_owned(), details: Some("missing".to_owned()) })
    );
    assert!(fetch_status(199, "199".to_owned(), None).is_err());
}

#[test]
fn send_status_classes() {
    assert_eq!(send_status(204, String::new()), Ok(()));
    assert_eq!(
        send_status(400, "text missing".to_owned()),
        Err(ErrorMessage { description: "Bad request: text missing".to_owned(), details: None })
    );
    assert_eq!(
        send_status(503, "ignored".to_owned()),
        Err(ErrorMessage { description: "unexpected response: 503".to_owned(), details: None })
    );
}

#[test]
fn decimal_codes() {
    assert_eq!(decimal_text(0), "0");
    assert_eq!(decimal_text(7), "7");
    assert_eq!(decimal_text(404), "404");
    assert_eq!(decimal_text(65535), "65535");
}

#[test]
fn transport_errors() {
    let e = ErrorMessage::no_answer(Request::Fetch, Some("refused".to_owned()));
    assert_eq!(e.description, "Unable to get messages from Server. Make sure it is running!");
    assert_eq!(e.details, Some("refused".to_owned()));
    let e = ErrorMessage::no_answer(Request::Send, None);
    assert_eq!(e.description, "Unable to send message to Server. Make sure it is running!");
    assert_eq!(ErrorMessage::bad_url("x".to_owned()).description, "Unable to parse URL");
    assert_eq!(ErrorMessage::unreadable("x".to_owned()).description, "Unable to read response");
    let e = ErrorMessage::undecodable("eof".to_owned());
    assert_eq!(e.description, "JSON parsing failed");
    assert_eq!(e.details, Some("eof".to_owned()));
    assert_eq!(e.duplicate(), e);
}

#[test]
fn endpoint_parsing() {
    assert_eq!(url(None).unwrap().as_str(), "http://localhost:9876/messages");
    assert_eq!(url(Some("https://chat.example/".to_owned())).unwrap().as_str(), "https://chat.example/messages");
    let refused = url(Some("nonsense".to_owned())).unwrap_err();
    assert_eq!(refused.description, "Unable to parse URL");
    assert!(refused.details.is_some());
}
