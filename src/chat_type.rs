use vstd::prelude::*;

verus! {

/// Origin or channel of a chat message.
///
/// The known variants are listed in wire order; `Unimplemented` keeps the raw
/// tag of anything the server sends that is not one of them.
#[derive(Clone, Debug, PartialEq, Eq, Hash)]
pub enum ChatType {
    /// No chat type; `none` on the wire.
    Unset,
    Debug,
    Urgent,
    Notice,
    Say,
    Shout,
    Yell,
    /// A tell the player sent.
    TellOutgoing,
    /// A tell the player received.
    TellIncoming,
    Party,
    FreeCompany,
    Alliance,
    CrossParty,
    LinkShell1,
    LinkShell2,
    LinkShell3,
    LinkShell4,
    LinkShell5,
    LinkShell6,
    LinkShell7,
    LinkShell8,
    CrossLinkShell1,
    CrossLinkShell2,
    CrossLinkShell3,
    CrossLinkShell4,
    CrossLinkShell5,
    CrossLinkShell6,
    CrossLinkShell7,
    CrossLinkShell8,
    NoviceNetwork,
    CustomEmote,
    StandardEmote,
    Echo,
    SystemError,
    SystemMessage,
    ErrorMessage,
    GatheringSystemMessage,
    NPCDialogue,
    NPCDialogueAnnouncements,
    RetainerSale,
    /// A tag this library does not know, as it came.
    Unimplemented(String),
}

/// Why a compose form could not be turned into an outgoing message.
#[derive(Clone, Debug, PartialEq, Eq)]
pub enum ComposeError {
    /// The chat type chosen is not one a user may send on.
    UnsupportedChatType(String),
    /// The form carried no chat type.
    MissingChatType,
    /// The form carried no text.
    MissingText,
    /// The form itself could not be read.
    FormUnavailable(String),
}

/// Position of a variant in the declaration order.
pub open spec fn ordinal_of(c: ChatType) -> int {
    match c {
        ChatType::Unset => 0,
        ChatType::Debug => 1,
        ChatType::Urgent => 2,
        ChatType::Notice => 3,
        ChatType::Say => 4,
        ChatType::Shout => 5,
        ChatType::Yell => 6,
        ChatType::TellOutgoing => 7,
        ChatType::TellIncoming => 8,
        ChatType::Party => 9,
        ChatType::FreeCompany => 10,
        ChatType::Alliance => 11,
        ChatType::CrossParty => 12,
        ChatType::LinkShell1 => 13,
        ChatType::LinkShell2 => 14,
        ChatType::LinkShell3 => 15,
        ChatType::LinkShell4 => 16,
        ChatType::LinkShell5 => 17,
        ChatType::LinkShell6 => 18,
        ChatType::LinkShell7 => 19,
        ChatType::LinkShell8 => 20,
        ChatType::CrossLinkShell1 => 21,
        ChatType::CrossLinkShell2 => 22,
        ChatType::CrossLinkShell3 => 23,
        ChatType::CrossLinkShell4 => 24,
        ChatType::CrossLinkShell5 => 25,
        ChatType::CrossLinkShell6 => 26,
        ChatType::CrossLinkShell7 => 27,
        ChatType::CrossLinkShell8 => 28,
        ChatType::NoviceNetwork => 29,
        ChatType::CustomEmote => 30,
        ChatType::StandardEmote => 31,
        ChatType::Echo => 32,
        ChatType::SystemError => 33,
        ChatType::SystemMessage => 34,
        ChatType::ErrorMessage => 35,
        ChatType::GatheringSystemMessage => 36,
        ChatType::NPCDialogue => 37,
        ChatType::NPCDialogueAnnouncements => 38,
        ChatType::RetainerSale => 39,
        ChatType::Unimplemented(_) => 40,
    }
}

/// The display label of a chat type.
pub open spec fn label_of(c: ChatType) -> Seq<char> {
    match c {
        ChatType::Unset => ""@,
        ChatType::Debug => "DBG"@,
        ChatType::Urgent => "Urgent"@,
        ChatType::Notice => "Notice"@,
        ChatType::Say => "Say"@,
        ChatType::Shout => "Shout"@,
        ChatType::Yell => "Yell"@,
        ChatType::TellOutgoing => "Tell>"@,
        ChatType::TellIncoming => "Tell<"@,
        ChatType::Party => "Party"@,
        ChatType::FreeCompany => "FC"@,
        ChatType::Alliance => "Alliance"@,
        ChatType::CrossParty => "Party"@,
        ChatType::LinkShell1 => "LS1"@,
        ChatType::LinkShell2 => "LS2"@,
        ChatType::LinkShell3 => "LS3"@,
        ChatType::LinkShell4 => "LS4"@,
        ChatType::LinkShell5 => "LS5"@,
        ChatType::LinkShell6 => "LS6"@,
        ChatType::LinkShell7 => "LS7"@,
        ChatType::LinkShell8 => "LS8"@,
        ChatType::CrossLinkShell1 => "CWLS1"@,
        ChatType::CrossLinkShell2 => "CWLS2"@,
        ChatType::CrossLinkShell3 => "CWLS3"@,
        ChatType::CrossLinkShell4 => "CWLS4"@,
        ChatType::CrossLinkShell5 => "CWLS5"@,
        ChatType::CrossLinkShell6 => "CWLS6"@,
        ChatType::CrossLinkShell7 => "CWLS7"@,
        ChatType::CrossLinkShell8 => "CWLS8"@,
        ChatType::NoviceNetwork => "NN"@,
        ChatType::CustomEmote => "CEmote"@,
        ChatType::StandardEmote => "Emote"@,
        ChatType::Echo => "Echo"@,
        ChatType::SystemError => "Error(System)"@,
        ChatType::SystemMessage => "System"@,
        ChatType::ErrorMessage => "Error"@,
        ChatType::GatheringSystemMessage => "Gathering"@,
        ChatType::NPCDialogue => "NPC"@,
        ChatType::NPCDialogueAnnouncements => "NPC"@,
        ChatType::RetainerSale => "Retainer"@,
        ChatType::Unimplemented(_) => "Unknown"@,
    }
}

/// The wire tag of a chat type; an unrecognised one keeps its raw tag.
pub open spec fn tag_of(c: ChatType) -> Seq<char> {
    match c {
        ChatType::Unset => "none"@,
        ChatType::Debug => "debug"@,
        ChatType::Urgent => "urgent"@,
        ChatType::Notice => "notice"@,
        ChatType::Say => "say"@,
        ChatType::Shout => "shout"@,
        ChatType::Yell => "yell"@,
        ChatType::TellOutgoing => "tellOutgoing"@,
        ChatType::TellIncoming => "tellIncoming"@,
        ChatType::Party => "party"@,
        ChatType::FreeCompany => "freeCompany"@,
        ChatType::Alliance => "alliance"@,
        ChatType::CrossParty => "crossParty"@,
        ChatType::LinkShell1 => "ls1"@,
        ChatType::LinkShell2 => "ls2"@,
        ChatType::LinkShell3 => "ls3"@,
        ChatType::LinkShell4 => "ls4"@,
        ChatType::LinkShell5 => "ls5"@,
        ChatType::LinkShell6 => "ls6"@,
        ChatType::LinkShell7 => "ls7"@,
        ChatType::LinkShell8 => "ls8"@,
        ChatType::CrossLinkShell1 => "crossLinkShell1"@,
        ChatType::CrossLinkShell2 => "crossLinkShell2"@,
        ChatType::CrossLinkShell3 => "crossLinkShell3"@,
        ChatType::CrossLinkShell4 => "crossLinkShell4"@,
        ChatType::CrossLinkShell5 => "crossLinkShell5"@,
        ChatType::CrossLinkShell6 => "crossLinkShell6"@,
        ChatType::CrossLinkShell7 => "crossLinkShell7"@,
        ChatType::CrossLinkShell8 => "crossLinkShell8"@,
        ChatType::NoviceNetwork => "noviceNetwork"@,
        ChatType::CustomEmote => "customEmote"@,
        ChatType::StandardEmote => "standardEmote"@,
        ChatType::Echo => "echo"@,
        ChatType::SystemError => "systemError"@,
        ChatType::SystemMessage => "systemMessage"@,
        ChatType::ErrorMessage => "errorMessage"@,
        ChatType::GatheringSystemMessage => "gatheringSystemMessage"@,
        ChatType::NPCDialogue => "npcDialogue"@,
        ChatType::NPCDialogueAnnouncements => "npcDialogueAnnouncements"@,
        ChatType::RetainerSale => "retainerSale"@,
        ChatType::Unimplemented(s) => s@,
    }
}

/// The known chat type whose wire tag is `t`, if any.
pub open spec fn known_tag(t: Seq<char>) -> Option<ChatType> {
    if t == "none"@ {
        Some(ChatType::Unset)
    } else if t == "debug"@ {
        Some(ChatType::Debug)
    } else if t == "urgent"@ {
        Some(ChatType::Urgent)
    } else if t == "notice"@ {
        Some(ChatType::Notice)
    } else if t == "say"@ {
        Some(ChatType::Say)
    } else if t == "shout"@ {
        Some(ChatType::Shout)
    } else if t == "yell"@ {
        Some(ChatType::Yell)
    } else if t == "tellOutgoing"@ {
        Some(ChatType::TellOutgoing)
    } else if t == "tellIncoming"@ {
        Some(ChatType::TellIncoming)
    } else if t == "party"@ {
        Some(ChatType::Party)
    } else if t == "freeCompany"@ {
        Some(ChatType::FreeCompany)
    } else if t == "alliance"@ {
        Some(ChatType::Alliance)
    } else if t == "crossParty"@ {
        Some(ChatType::CrossParty)
    } else if t == "ls1"@ {
        Some(ChatType::LinkShell1)
    } else if t == "ls2"@ {
        Some(ChatType::LinkShell2)
    } else if t == "ls3"@ {
        Some(ChatType::LinkShell3)
    } else if t == "ls4"@ {
        Some(ChatType::LinkShell4)
    } else if t == "ls5"@ {
        Some(ChatType::LinkShell5)
    } else if t == "ls6"@ {
        Some(ChatType::LinkShell6)
    } else if t == "ls7"@ {
        Some(ChatType::LinkShell7)
    } else if t == "ls8"@ {
        Some(ChatType::LinkShell8)
    } else if t == "crossLinkShell1"@ {
        Some(ChatType::CrossLinkShell1)
    } else if t == "crossLinkShell2"@ {
        Some(ChatType::CrossLinkShell2)
    } else if t == "crossLinkShell3"@ {
        Some(ChatType::CrossLinkShell3)
    } else if t == "crossLinkShell4"@ {
        Some(ChatType::CrossLinkShell4)
    } else if t == "crossLinkShell5"@ {
        Some(ChatType::CrossLinkShell5)
    } else if t == "crossLinkShell6"@ {
        Some(ChatType::CrossLinkShell6)
    } else if t == "crossLinkShell7"@ {
        Some(ChatType::CrossLinkShell7)
    } else if t == "crossLinkShell8"@ {
        Some(ChatType::CrossLinkShell8)
    } else if t == "noviceNetwork"@ {
        Some(ChatType::NoviceNetwork)
    } else if t == "customEmote"@ {
        Some(ChatType::CustomEmote)
    } else if t == "standardEmote"@ {
        Some(ChatType::StandardEmote)
    } else if t == "echo"@ {
        Some(ChatType::Echo)
    } else if t == "systemError"@ {
        Some(ChatType::SystemError)
    } else if t == "systemMessage"@ {
        Some(ChatType::SystemMessage)
    } else if t == "errorMessage"@ {
        Some(ChatType::ErrorMessage)
    } else if t == "gatheringSystemMessage"@ {
        Some(ChatType::GatheringSystemMessage)
    } else if t == "npcDialogue"@ {
        Some(ChatType::NPCDialogue)
    } else if t == "npcDialogueAnnouncements"@ {
        Some(ChatType::NPCDialogueAnnouncements)
    } else if t == "retainerSale"@ {
        Some(ChatType::RetainerSale)
    } else {
        None
    }
}

/// Whether `c` lies in the range of variants from `lo` to `hi`, both included,
/// by declaration order.
pub open spec fn in_range(c: ChatType, lo: ChatType, hi: ChatType) -> bool {
    ordinal_of(lo) <= ordinal_of(c) <= ordinal_of(hi)
}

/// The display color of a chat type. Linkshells and cross-world linkshells
/// are colored by range, so every variant between the first and the eighth
/// takes the color of its family.
pub open spec fn color_of(c: ChatType) -> Seq<char> {
    if c is Yell {
        "#fcfc03"@
    } else if c is Shout {
        "#ffce63"@
    } else if c is TellIncoming || c is TellOutgoing {
        "#f263ff"@
    } else if c is Alliance {
        "#ed9511"@
    } else if c is FreeCompany {
        "#4ef542"@
    } else if c is Party {
        "#426ff5"@
    } else if in_range(c, ChatType::CrossLinkShell1, ChatType::CrossLinkShell8) {
        "#9f3cbd"@
    } else if c is NoviceNetwork {
        "#cfe05c"@
    } else if in_range(c, ChatType::LinkShell1, ChatType::LinkShell8) {
        "#fad2b9"@
    } else if c is StandardEmote || c is CustomEmote {
        "#e1faf9"@
    } else if c is NPCDialogue || c is NPCDialogueAnnouncements {
        "#6ead10"@
    } else {
        "#FFFFFFFF"@
    }
}

/// The chat type that decoding the wire tag `tag` gives.
pub open spec fn type_of_tag(tag: String) -> ChatType {
    match known_tag(tag@) {
        Some(c) => c,
        None => ChatType::Unimplemented(tag),
    }
}

/// The chat types a user may choose in the compose form, by the form's value.
pub open spec fn user_selectable(s: Seq<char>) -> Option<ChatType> {
    if s == "Say"@ {
        Some(ChatType::Say)
    } else if s == "Shout"@ {
        Some(ChatType::Shout)
    } else if s == "Yell"@ {
        Some(ChatType::Yell)
    } else if s == "Party"@ {
        Some(ChatType::Party)
    } else if s == "FC"@ {
        Some(ChatType::FreeCompany)
    } else {
        None
    }
}

/// An unknown wire tag is no error: it decodes to the fallback variant, whose
/// label is "Unknown" and whose color is the default one.
pub proof fn lemma_unknown_tag_falls_back(tag: String)
    requires
        known_tag(tag@) is None,
    ensures
        type_of_tag(tag) == ChatType::Unimplemented(tag),
        label_of(type_of_tag(tag)) == "Unknown"@,
        color_of(type_of_tag(tag)) == "#FFFFFFFF"@,
{
}

/// Whether `s` holds exactly the characters of `lit`.
fn same_text(s: &str, lit: &str) -> (r: bool)
    ensures
        r == (s@ == lit@),
{
    s.to_owned() == lit.to_owned()
}

impl ChatType {
    /// Position of the variant in the declaration order.
    pub fn ordinal(&self) -> (r: u32)
        ensures
            r == ordinal_of(*self),
    {
        match self {
            ChatType::Unset => 0,
            ChatType::Debug => 1,
            ChatType::Urgent => 2,
            ChatType::Notice => 3,
            ChatType::Say => 4,
            ChatType::Shout => 5,
            ChatType::Yell => 6,
            ChatType::TellOutgoing => 7,
            ChatType::TellIncoming => 8,
            ChatType::Party => 9,
            ChatType::FreeCompany => 10,
            ChatType::Alliance => 11,
            ChatType::CrossParty => 12,
            ChatType::LinkShell1 => 13,
            ChatType::LinkShell2 => 14,
            ChatType::LinkShell3 => 15,
            ChatType::LinkShell4 => 16,
            ChatType::LinkShell5 => 17,
            ChatType::LinkShell6 => 18,
            ChatType::LinkShell7 => 19,
            ChatType::LinkShell8 => 20,
            ChatType::CrossLinkShell1 => 21,
            ChatType::CrossLinkShell2 => 22,
            ChatType::CrossLinkShell3 => 23,
            ChatType::CrossLinkShell4 => 24,
            ChatType::CrossLinkShell5 => 25,
            ChatType::CrossLinkShell6 => 26,
            ChatType::CrossLinkShell7 => 27,
            ChatType::CrossLinkShell8 => 28,
            ChatType::NoviceNetwork => 29,
            ChatType::CustomEmote => 30,
            ChatType::StandardEmote => 31,
            ChatType::Echo => 32,
            ChatType::SystemError => 33,
            ChatType::SystemMessage => 34,
            ChatType::ErrorMessage => 35,
            ChatType::GatheringSystemMessage => 36,
            ChatType::NPCDialogue => 37,
            ChatType::NPCDialogueAnnouncements => 38,
            ChatType::RetainerSale => 39,
            ChatType::Unimplemented(_) => 40,
        }
    }

    /// The display label; an unrecognised tag shows as "Unknown".
    pub fn label(&self) -> (r: &'static str)
        ensures
            r@ == label_of(*self),
    {
        match self {
            ChatType::Unset => "",
            ChatType::Debug => "DBG",
            ChatType::Urgent => "Urgent",
            ChatType::Notice => "Notice",
            ChatType::Say => "Say",
            ChatType::Shout => "Shout",
            ChatType::Yell => "Yell",
            ChatType::TellOutgoing => "Tell>",
            ChatType::TellIncoming => "Tell<",
            ChatType::Party => "Party",
            ChatType::FreeCompany => "FC",
            ChatType::Alliance => "Alliance",
            ChatType::CrossParty => "Party",
            ChatType::LinkShell1 => "LS1",
            ChatType::LinkShell2 => "LS2",
            ChatType::LinkShell3 => "LS3",
            ChatType::LinkShell4 => "LS4",
            ChatType::LinkShell5 => "LS5",
            ChatType::LinkShell6 => "LS6",
            ChatType::LinkShell7 => "LS7",
            ChatType::LinkShell8 => "LS8",
            ChatType::CrossLinkShell1 => "CWLS1",
            ChatType::CrossLinkShell2 => "CWLS2",
            ChatType::CrossLinkShell3 => "CWLS3",
            ChatType::CrossLinkShell4 => "CWLS4",
            ChatType::CrossLinkShell5 => "CWLS5",
            ChatType::CrossLinkShell6 => "CWLS6",
            ChatType::CrossLinkShell7 => "CWLS7",
            ChatType::CrossLinkShell8 => "CWLS8",
            ChatType::NoviceNetwork => "NN",
            ChatType::CustomEmote => "CEmote",
            ChatType::StandardEmote => "Emote",
            ChatType::Echo => "Echo",
            ChatType::SystemError => "Error(System)",
            ChatType::SystemMessage => "System",
            ChatType::ErrorMessage => "Error",
            ChatType::GatheringSystemMessage => "Gathering",
            ChatType::NPCDialogue => "NPC",
            ChatType::NPCDialogueAnnouncements => "NPC",
            ChatType::RetainerSale => "Retainer",
            ChatType::Unimplemented(_) => "Unknown",
        }
    }

    /// The wire tag, as the server spells it.
    pub fn tag(&self) -> (r: String)
        ensures
            r@ == tag_of(*self),
    {
        match self {
            ChatType::Unset => "none".to_owned(),
            ChatType::Debug => "debug".to_owned(),
            ChatType::Urgent => "urgent".to_owned(),
            ChatType::Notice => "notice".to_owned(),
            ChatType::Say => "say".to_owned(),
            ChatType::Shout => "shout".to_owned(),
            ChatType::Yell => "yell".to_owned(),
            ChatType::TellOutgoing => "tellOutgoing".to_owned(),
            ChatType::TellIncoming => "tellIncoming".to_owned(),
            ChatType::Party => "party".to_owned(),
            ChatType::FreeCompany => "freeCompany".to_owned(),
            ChatType::Alliance => "alliance".to_owned(),
            ChatType::CrossParty => "crossParty".to_owned(),
            ChatType::LinkShell1 => "ls1".to_owned(),
            ChatType::LinkShell2 => "ls2".to_owned(),
            ChatType::LinkShell3 => "ls3".to_owned(),
            ChatType::LinkShell4 => "ls4".to_owned(),
            ChatType::LinkShell5 => "ls5".to_owned(),
            ChatType::LinkShell6 => "ls6".to_owned(),
            ChatType::LinkShell7 => "ls7".to_owned(),
            ChatType::LinkShell8 => "ls8".to_owned(),
            ChatType::CrossLinkShell1 => "crossLinkShell1".to_owned(),
            ChatType::CrossLinkShell2 => "crossLinkShell2".to_owned(),
            ChatType::CrossLinkShell3 => "crossLinkShell3".to_owned(),
            ChatType::CrossLinkShell4 => "crossLinkShell4".to_owned(),
            ChatType::CrossLinkShell5 => "crossLinkShell5".to_owned(),
            ChatType::CrossLinkShell6 => "crossLinkShell6".to_owned(),
            ChatType::CrossLinkShell7 => "crossLinkShell7".to_owned(),
            ChatType::CrossLinkShell8 => "crossLinkShell8".to_owned(),
            ChatType::NoviceNetwork => "noviceNetwork".to_owned(),
            ChatType::CustomEmote => "customEmote".to_owned(),
            ChatType::StandardEmote => "standardEmote".to_owned(),
            ChatType::Echo => "echo".to_owned(),
            ChatType::SystemError => "systemError".to_owned(),
            ChatType::SystemMessage => "systemMessage".to_owned(),
            ChatType::ErrorMessage => "errorMessage".to_owned(),
            ChatType::GatheringSystemMessage => "gatheringSystemMessage".to_owned(),
            ChatType::NPCDialogue => "npcDialogue".to_owned(),
            ChatType::NPCDialogueAnnouncements => "npcDialogueAnnouncements".to_owned(),
            ChatType::RetainerSale => "retainerSale".to_owned(),
            ChatType::Unimplemented(s) => s.clone(),
        }
    }

    /// Decodes a wire tag. A tag that names no known variant is kept in
    /// `Unimplemented`, so decoding never fails.
    pub fn from_tag(tag: String) -> (r: ChatType)
        ensures
            r == type_of_tag(tag),
    {
        if same_text(tag.as_str(), "none") {
            ChatType::Unset
        } else if same_text(tag.as_str(), "debug") {
            ChatType::Debug
        } else if same_text(tag.as_str(), "urgent") {
            ChatType::Urgent
        } else if same_text(tag.as_str(), "notice") {
            ChatType::Notice
        } else if same_text(tag.as_str(), "say") {
            ChatType::Say
        } else if same_text(tag.as_str(), "shout") {
            ChatType::Shout
        } else if same_text(tag.as_str(), "yell") {
            ChatType::Yell
        } else if same_text(tag.as_str(), "tellOutgoing") {
            ChatType::TellOutgoing
        } else if same_text(tag.as_str(), "tellIncoming") {
            ChatType::TellIncoming
        } else if same_text(tag.as_str(), "party") {
            ChatType::Party
        } else if same_text(tag.as_str(), "freeCompany") {
            ChatType::FreeCompany
        } else if same_text(tag.as_str(), "alliance") {
            ChatType::Alliance
        } else if same_text(tag.as_str(), "crossParty") {
            ChatType::CrossParty
        } else if same_text(tag.as_str(), "ls1") {
            ChatType::LinkShell1
        } else if same_text(tag.as_str(), "ls2") {
            ChatType::LinkShell2
        } else if same_text(tag.as_str(), "ls3") {
            ChatType::LinkShell3
        } else if same_text(tag.as_str(), "ls4") {
            ChatType::LinkShell4
        } else if same_text(tag.as_str(), "ls5") {
            ChatType::LinkShell5
        } else if same_text(tag.as_str(), "ls6") {
            ChatType::LinkShell6
        } else if same_text(tag.as_str(), "ls7") {
            ChatType::LinkShell7
        } else if same_text(tag.as_str(), "ls8") {
            ChatType::LinkShell8
        } else if same_text(tag.as_str(), "crossLinkShell1") {
            ChatType::CrossLinkShell1
        } else if same_text(tag.as_str(), "crossLinkShell2") {
            ChatType::CrossLinkShell2
        } else if same_text(tag.as_str(), "crossLinkShell3") {
            ChatType::CrossLinkShell3
        } else if same_text(tag.as_str(), "crossLinkShell4") {
            ChatType::CrossLinkShell4
        } else if same_text(tag.as_str(), "crossLinkShell5") {
            ChatType::CrossLinkShell5
        } else if same_text(tag.as_str(), "crossLinkShell6") {
            ChatType::CrossLinkShell6
        } else if same_text(tag.as_str(), "crossLinkShell7") {
            ChatType::CrossLinkShell7
        } else if same_text(tag.as_str(), "crossLinkShell8") {
            ChatType::CrossLinkShell8
        } else if same_text(tag.as_str(), "noviceNetwork") {
            ChatType::NoviceNetwork
        } else if same_text(tag.as_str(), "customEmote") {
            ChatType::CustomEmote
        } else if same_text(tag.as_str(), "standardEmote") {
            ChatType::StandardEmote
        } else if same_text(tag.as_str(), "echo") {
            ChatType::Echo
        } else if same_text(tag.as_str(), "systemError") {
            ChatType::SystemError
        } else if same_text(tag.as_str(), "systemMessage") {
            ChatType::SystemMessage
        } else if same_text(tag.as_str(), "errorMessage") {
            ChatType::ErrorMessage
        } else if same_text(tag.as_str(), "gatheringSystemMessage") {
            ChatType::GatheringSystemMessage
        } else if same_text(tag.as_str(), "npcDialogue") {
            ChatType::NPCDialogue
        } else if same_text(tag.as_str(), "npcDialogueAnnouncements") {
            ChatType::NPCDialogueAnnouncements
        } else if same_text(tag.as_str(), "retainerSale") {
            ChatType::RetainerSale
        } else {
            ChatType::Unimplemented(tag)
        }
    }

    /// The display color, as a CSS color value.
    pub fn get_color(&self) -> (r: String)
        ensures
            r@ == color_of(*self),
    {
        let o = self.ordinal();
        let c = if matches!(self, ChatType::Yell) {
            "#fcfc03"
        } else if matches!(self, ChatType::Shout) {
            "#ffce63"
        } else if matches!(self, ChatType::TellIncoming | ChatType::TellOutgoing) {
            "#f263ff"
        } else if matches!(self, ChatType::Alliance) {
            "#ed9511"
        } else if matches!(self, ChatType::FreeCompany) {
            "#4ef542"
        } else if matches!(self, ChatType::Party) {
            "#426ff5"
        } else if ChatType::CrossLinkShell1.ordinal() <= o && o <= ChatType::CrossLinkShell8.ordinal() {
            "#9f3cbd"
        } else if matches!(self, ChatType::NoviceNetwork) {
            "#cfe05c"
        } else if ChatType::LinkShell1.ordinal() <= o && o <= ChatType::LinkShell8.ordinal() {
            "#fad2b9"
        } else if matches!(self, ChatType::StandardEmote | ChatType::CustomEmote) {
            "#e1faf9"
        } else if matches!(self, ChatType::NPCDialogue | ChatType::NPCDialogueAnnouncements) {
            "#6ead10"
        } else {
            "#FFFFFFFF"
        };
        c.to_owned()
    }

    /// Parses the chat type chosen in the compose form. Only the types a user
    /// may send on are accepted; anything else is refused with its raw value.
    pub fn parse_user_selectable(value: String) -> (r: Result<ChatType, ComposeError>)
        ensures
            r == (match user_selectable(value@) {
                Some(c) => Ok(c),
                None => Err(ComposeError::UnsupportedChatType(value)),
            }),
    {
        if same_text(value.as_str(), "Say") {
            Ok(ChatType::Say)
        } else if same_text(value.as_str(), "Shout") {
            Ok(ChatType::Shout)
        } else if same_text(value.as_str(), "Yell") {
            Ok(ChatType::Yell)
        } else if same_text(value.as_str(), "Party") {
            Ok(ChatType::Party)
        } else if same_text(value.as_str(), "FC") {
            Ok(ChatType::FreeCompany)
        } else {
            Err(ComposeError::UnsupportedChatType(value))
        }
    }

    /// A copy of this chat type.
    pub fn duplicate(&self) -> (r: ChatType)
        ensures
            r == *self,
    {
        match self {
            ChatType::Unset => ChatType::Unset,
            ChatType::Debug => ChatType::Debug,
            ChatType::Urgent => ChatType::Urgent,
            ChatType::Notice => ChatType::Notice,
            ChatType::Say => ChatType::Say,
            ChatType::Shout => ChatType::Shout,
            ChatType::Yell => ChatType::Yell,
            ChatType::TellOutgoing => ChatType::TellOutgoing,
            ChatType::TellIncoming => ChatType::TellIncoming,
            ChatType::Party => ChatType::Party,
            ChatType::FreeCompany => ChatType::FreeCompany,
            ChatType::Alliance => ChatType::Alliance,
            ChatType::CrossParty => ChatType::CrossParty,
            ChatType::LinkShell1 => ChatType::LinkShell1,
            ChatType::LinkShell2 => ChatType::LinkShell2,
            ChatType::LinkShell3 => ChatType::LinkShell3,
            ChatType::LinkShell4 => ChatType::LinkShell4,
            ChatType::LinkShell5 => ChatType::LinkShell5,
            ChatType::LinkShell6 => ChatType::LinkShell6,
            ChatType::LinkShell7 => ChatType::LinkShell7,
            ChatType::LinkShell8 => ChatType::LinkShell8,
            ChatType::CrossLinkShell1 => ChatType::CrossLinkShell1,
            ChatType::CrossLinkShell2 => ChatType::CrossLinkShell2,
            ChatType::CrossLinkShell3 => ChatType::CrossLinkShell3,
            ChatType::CrossLinkShell4 => ChatType::CrossLinkShell4,
            ChatType::CrossLinkShell5 => ChatType::CrossLinkShell5,
            ChatType::CrossLinkShell6 => ChatType::CrossLinkShell6,
            ChatType::CrossLinkShell7 => ChatType::CrossLinkShell7,
            ChatType::CrossLinkShell8 => ChatType::CrossLinkShell8,
            ChatType::NoviceNetwork => ChatType::NoviceNetwork,
            ChatType::CustomEmote => ChatType::CustomEmote,
            ChatType::StandardEmote => ChatType::StandardEmote,
            ChatType::Echo => ChatType::Echo,
            ChatType::SystemError => ChatType::SystemError,
            ChatType::SystemMessage => ChatType::SystemMessage,
            ChatType::ErrorMessage => ChatType::ErrorMessage,
            ChatType::GatheringSystemMessage => ChatType::GatheringSystemMessage,
            ChatType::NPCDialogue => ChatType::NPCDialogue,
            ChatType::NPCDialogueAnnouncements => ChatType::NPCDialogueAnnouncements,
            ChatType::RetainerSale => ChatType::RetainerSale,
            ChatType::Unimplemented(s) => ChatType::Unimplemented(s.clone()),
        }
    }
}

} // verus!
