//! The decisions of the terminal interface: what each action and each
//! outcome of the work it asks for does to the screen, the status line and
//! the typing indicator, and which work comes next. The application runs
//! the loop: it draws the state, turns key presses into actions, performs
//! the effects and hands their outcomes back.

use vstd::prelude::*;

use crate::handlers::friend_request::own_friend_code;
use crate::presence::{announces_start, announces_stop, nanos_between, TypingState, NANOS_PER_SEC};
use crate::protocol::friend_code::friend_code_of_onion;
use crate::protocol::message::PresenceType;
use crate::text::str_to_string;
use crate::ui::view::{ttl_menu_entry, ttl_menu_index};

verus! {

/// What the main area shows.
#[derive(Debug)]
pub enum Screen {
    /// The sidebar and the open conversation, if any.
    Normal { conversation_id: Option<i64>, selected_friend: Option<usize> },
    /// The add-friend dialog, with the code typed and the last error.
    AddingFriend { input: String, error: Option<String> },
    /// The pending friend requests, one of them selected.
    ViewingFriendRequests { requests: Vec<i64>, selected: usize },
    /// Our friend code and address.
    ViewingMyIdentity { friend_code: String, onion_address: String },
    /// The time-to-live menu of a conversation, one entry highlighted.
    SettingEphemeral { conversation_id: i64, selected: usize },
    /// A channel's posts.
    ViewingChannel { publisher_onion: String, channel_type: String, is_own: bool },
}

/// The state of the terminal interface.
#[derive(Debug)]
pub struct TuiState {
    pub screen: Screen,
    /// The status line's message, shown until it expires.
    pub flash: Option<String>,
    /// The typing indicator of the open conversation.
    pub typing: TypingState,
    /// Our address, once Tor is up.
    pub own_onion: Option<String>,
    /// The user asked to leave.
    pub quit: bool,
}

/// What a key press asks for.
#[derive(Debug)]
pub enum TuiAction {
    SendFriendRequest(String),
    AcceptFriendRequest(i64),
    RejectFriendRequest(i64),
    ViewFriendRequests,
    ViewMyIdentity,
    SelectFriend(usize),
    SendMessage(String),
    SetEphemeralTtl(i64, Option<i64>),
    /// Content, then channel type.
    PublishChannelPost(String, String),
    SubscribeToChannel(String),
    /// Publisher, channel type, whether it is our own channel.
    SelectChannel(String, String, bool),
    ViewOwnChannel,
    ToggleNotifications,
    Quit,
}

/// What the loop hands to the step: an action, or the outcome of an effect.
#[derive(Debug)]
pub enum TuiEvent {
    Action(TuiAction),
    /// A friend request was sent or queued, or failed with this text.
    FriendRequestSent { code: String, error: Option<String> },
    /// A friend request was accepted or rejected (or failed with this
    /// text); `pending` holds the requests still pending when the list is
    /// to be shown again.
    RequestAnswered { accepted: bool, error: Option<String>, pending: Option<Vec<i64>> },
    /// The pending friend requests.
    PendingRequests { ids: Vec<i64> },
    /// The conversation with the selected friend.
    ConversationOpened { conversation_id: i64 },
    /// A message was stored and sent or queued, or could not be encrypted.
    MessageSent { encrypted: bool },
    /// Notifications are now on or off.
    NotificationsToggled { enabled: bool },
    /// The time-to-live menu of a conversation was opened; its current
    /// setting.
    EphemeralMenuOpened { conversation_id: i64, current_ttl: Option<i64> },
    /// The input of the conversation with a friend changed, at `now`
    /// nanoseconds on a monotonic clock.
    TypingInput { friend_index: usize, input_empty: bool, now: u128 },
    /// Tor is up and this is our address.
    TorReady { onion: String },
    /// The status line's message has been shown long enough.
    FlashExpired,
}

/// The work the loop does for a step.
#[derive(Debug)]
pub enum TuiEffect {
    /// Send (or queue) a friend request to this code or address.
    SendFriendRequest { code: String },
    /// Accept or reject a pending request; reload the pending list after.
    AnswerRequest { id: i64, accept: bool, reload_pending: bool },
    /// Load the pending friend requests.
    LoadPendingRequests,
    /// Open the conversation with this friend: mark it read, start its
    /// ephemeral timers and send read receipts.
    OpenConversation { friend_index: usize },
    /// Store, encrypt and send (or queue) a text message.
    SendText { conversation_id: i64, friend_index: usize, content: String },
    /// Set a conversation's time to live.
    SetEphemeralTtl { conversation_id: i64, ttl: Option<i64> },
    /// Publish a post on our channel of this type (`publish_post`).
    PublishPost { channel_type: String, content: String },
    /// Subscribe to a publisher's public channel.
    Subscribe { publisher_onion: String },
    /// Toggle desktop notifications.
    ToggleNotifications,
    /// Send a typing indicator to this friend.
    SendTyping { friend_index: usize, presence_type: PresenceType },
}

/// How long the status line shows a message, in seconds.
pub const FLASH_SECS: u64 = 2;

/// Whether a status message shown at `shown_at` has expired at `now`
/// (nanoseconds on a monotonic clock): it is shown for `FLASH_SECS`.
pub fn flash_expired(shown_at: u128, now: u128) -> (r: bool)
    ensures
        r == (nanos_between(shown_at, now) >= FLASH_SECS as u128 * NANOS_PER_SEC),
{
    let shown: u128 = if now >= shown_at { now - shown_at } else { 0 };
    shown >= FLASH_SECS as u128 * NANOS_PER_SEC
}

/// The home screen: the sidebar with no conversation open.
pub open spec fn home() -> Screen {
    Screen::Normal { conversation_id: None, selected_friend: None }
}

impl TuiState {
    /// A selected entry always exists.
    pub open spec fn wf(&self) -> bool {
        match self.screen {
            Screen::ViewingFriendRequests { requests, selected } => selected < requests@.len(),
            Screen::SettingEphemeral { selected, .. } => selected <= 4,
            _ => true,
        }
    }

    /// The state on start: the home screen, no message, not typing, Tor
    /// not yet up.
    pub fn new() -> (r: Self)
        ensures
            r.wf(),
            r.screen == home(),
            r.flash is None,
            r.typing == (TypingState { was_typing: false, last_started_at: None }),
            r.own_onion is None,
            !r.quit,
    {
        TuiState { screen: Screen::Normal { conversation_id: None, selected_friend: None }, flash: None, typing: TypingState::new(), own_onion: None, quit: false }
    }
}

/// The text of a `String`, or nothing.
pub open spec fn text_of(s: Option<String>) -> Option<Seq<char>> {
    match s {
        Some(t) => Some(t@),
        None => None,
    }
}

/// The requests screen for a pending list, or home when it is empty.
pub open spec fn requests_screen_is(screen: Screen, ids: Seq<i64>) -> bool {
    if ids.len() == 0 {
        screen == home()
    } else {
        (screen matches Screen::ViewingFriendRequests { requests, selected } && requests@ == ids && selected == 0)
    }
}

fn concat(a: &str, b: &str) -> (r: String)
    ensures
        r@ == a@ + b@,
{
    let mut r = str_to_string(a);
    r.append(b);
    r
}

/// One step of the interface: the next state and the work to do.
pub fn tui_step(state: TuiState, event: TuiEvent) -> (r: (TuiState, Vec<TuiEffect>))
    requires
        state.wf(),
    ensures
        r.0.wf(),
        match event {
            TuiEvent::Action(TuiAction::SendFriendRequest(code)) => {
                &&& r.0 == state
                &&& r.1@.len() == 1
                &&& r.1@[0] matches TuiEffect::SendFriendRequest { code: c } && c@ == code@
            },
            TuiEvent::Action(TuiAction::AcceptFriendRequest(id)) => {
                &&& r.0 == state
                &&& r.1@ == seq![TuiEffect::AnswerRequest { id, accept: true, reload_pending: state.screen is ViewingFriendRequests }]
            },
            TuiEvent::Action(TuiAction::RejectFriendRequest(id)) => {
                &&& r.0 == state
                &&& r.1@ == seq![TuiEffect::AnswerRequest { id, accept: false, reload_pending: state.screen is ViewingFriendRequests }]
            },
            TuiEvent::Action(TuiAction::ViewFriendRequests) => r.0 == state && r.1@ == seq![TuiEffect::LoadPendingRequests],
            TuiEvent::Action(TuiAction::ViewMyIdentity) => {
                &&& r.1@.len() == 0
                &&& r.0.flash == state.flash && r.0.typing == state.typing && r.0.own_onion == state.own_onion && r.0.quit
                    == state.quit
                &&& r.0.screen matches Screen::ViewingMyIdentity { friend_code, onion_address } && match state.own_onion {
                    Some(o) => onion_address@ == o@ && friend_code@ == match friend_code_of_onion(o@) {
                        Ok(code) => code,
                        Err(_) => "unknown"@,
                    },
                    None => onion_address@ == "(Waiting for Tor...)"@ && friend_code@ == "(Waiting for Tor...)"@,
                }
            },
            TuiEvent::Action(TuiAction::SelectFriend(idx)) => {
                &&& r.1@ == seq![TuiEffect::OpenConversation { friend_index: idx }]
                &&& r.0.flash == state.flash && r.0.typing == state.typing && r.0.own_onion == state.own_onion && r.0.quit
                    == state.quit
                &&& match state.screen {
                    Screen::Normal { conversation_id, .. } => r.0.screen == (Screen::Normal {
                        conversation_id,
                        selected_friend: Some(idx),
                    }),
                    _ => r.0.screen == state.screen,
                }
            },
            TuiEvent::Action(TuiAction::SendMessage(content)) => {
                &&& r.0.screen == state.screen && r.0.flash == state.flash && r.0.own_onion == state.own_onion
                    && r.0.quit == state.quit
                &&& r.0.typing == (TypingState { was_typing: false, last_started_at: None })
                &&& match state.screen {
                    Screen::Normal { conversation_id: Some(c), selected_friend: Some(i) } => r.1@.len() == 1
                        && (r.1@[0] matches TuiEffect::SendText { conversation_id, friend_index, content: t }
                        && conversation_id == c && friend_index == i && t@ == content@),
                    _ => r.1@.len() == 0,
                }
            },
            TuiEvent::Action(TuiAction::SetEphemeralTtl(c, ttl)) => r.0 == state && r.1@ == seq![
                TuiEffect::SetEphemeralTtl { conversation_id: c, ttl },
            ],
            TuiEvent::Action(TuiAction::PublishChannelPost(content, channel_type)) => {
                &&& r.0 == state
                &&& r.1@.len() == 1
                &&& r.1@[0] matches TuiEffect::PublishPost { channel_type: t, content: b } && t@
                    == channel_type@ && b@ == content@
            },
            TuiEvent::Action(TuiAction::SubscribeToChannel(p)) => {
                &&& r.0.screen == home() && r.0.flash == state.flash && r.0.typing == state.typing && r.0.own_onion
                    == state.own_onion && r.0.quit == state.quit
                &&& r.1@.len() == 1
                &&& r.1@[0] matches TuiEffect::Subscribe { publisher_onion } && publisher_onion@
                    == p@
            },
            TuiEvent::Action(TuiAction::SelectChannel(p, t, own)) => {
                &&& r.1@.len() == 0
                &&& r.0.flash == state.flash && r.0.typing == state.typing && r.0.own_onion == state.own_onion && r.0.quit
                    == state.quit
                &&& r.0.screen matches Screen::ViewingChannel { publisher_onion, channel_type, is_own }
                    && publisher_onion@ == p@ && channel_type@ == t@ && is_own == own
            },
            TuiEvent::Action(TuiAction::ViewOwnChannel) => {
                &&& r.1@.len() == 0
                &&& r.0.flash == state.flash && r.0.typing == state.typing && r.0.own_onion == state.own_onion && r.0.quit
                    == state.quit
                &&& r.0.screen matches Screen::ViewingChannel { publisher_onion, channel_type, is_own }
                    && publisher_onion@ == match state.own_onion {
                    Some(o) => o@,
                    None => Seq::empty(),
                } && channel_type@ == "public"@ && is_own
            },
            TuiEvent::Action(TuiAction::ToggleNotifications) => r.0 == state && r.1@ == seq![TuiEffect::ToggleNotifications],
            TuiEvent::Action(TuiAction::Quit) => {
                &&& r.1@.len() == 0
                &&& r.0.quit
                &&& r.0.screen == state.screen && r.0.flash == state.flash && r.0.typing == state.typing
                    && r.0.own_onion == state.own_onion
            },
            TuiEvent::FriendRequestSent { code, error } => {
                &&& r.1@.len() == 0
                &&& r.0.flash == state.flash && r.0.typing == state.typing && r.0.own_onion == state.own_onion && r.0.quit
                    == state.quit
                &&& match error {
                    None => r.0.screen == home(),
                    Some(e) => (r.0.screen matches Screen::AddingFriend { input, error: Some(shown) } && input@
                        == code@ && shown@ == "Failed: "@ + e@),
                }
            },
            TuiEvent::RequestAnswered { accepted, error, pending } => {
                &&& r.1@.len() == 0
                &&& r.0.typing == state.typing && r.0.own_onion == state.own_onion && r.0.quit == state.quit
                &&& text_of(r.0.flash) == Some(match error {
                    Some(e) => e@,
                    None => if accepted {
                        "Friend request accepted"@
                    } else {
                        "Friend request rejected"@
                    },
                })
                &&& match pending {
                    Some(ids) => requests_screen_is(r.0.screen, ids@),
                    None => r.0.screen == home(),
                }
            },
            TuiEvent::PendingRequests { ids } => {
                &&& r.1@.len() == 0
                &&& r.0.typing == state.typing && r.0.own_onion == state.own_onion && r.0.quit == state.quit
                &&& if ids@.len() == 0 {
                    r.0.screen == state.screen && text_of(r.0.flash) == Some("No pending friend requests"@)
                } else {
                    r.0.flash == state.flash && (r.0.screen matches Screen::ViewingFriendRequests { requests, selected }
                        && requests@ == ids@ && selected == 0)
                }
            },
            TuiEvent::ConversationOpened { conversation_id: c } => {
                &&& r.1@.len() == 0
                &&& r.0.flash == state.flash && r.0.typing == state.typing && r.0.own_onion == state.own_onion && r.0.quit
                    == state.quit
                &&& match state.screen {
                    Screen::Normal { selected_friend, .. } => r.0.screen == (Screen::Normal {
                        conversation_id: Some(c),
                        selected_friend,
                    }),
                    _ => r.0.screen == state.screen,
                }
            },
            TuiEvent::MessageSent { encrypted } => {
                &&& r.1@.len() == 0
                &&& r.0.screen == state.screen && r.0.typing == state.typing && r.0.own_onion == state.own_onion
                    && r.0.quit == state.quit
                &&& if encrypted {
                    r.0.flash == state.flash
                } else {
                    text_of(r.0.flash) == Some("Message failed \u{2014} no encryption session"@)
                }
            },
            TuiEvent::NotificationsToggled { enabled } => {
                &&& r.1@.len() == 0
                &&& r.0.screen == state.screen && r.0.typing == state.typing && r.0.own_onion == state.own_onion
                    && r.0.quit == state.quit
                &&& text_of(r.0.flash) == Some(if enabled { "Notifications: ON"@ } else { "Notifications: OFF"@ })
            },
            TuiEvent::EphemeralMenuOpened { conversation_id: c, current_ttl } => {
                &&& r.1@.len() == 0
                &&& r.0.flash == state.flash && r.0.typing == state.typing && r.0.own_onion == state.own_onion && r.0.quit
                    == state.quit
                &&& r.0.screen == (Screen::SettingEphemeral {
                    conversation_id: c,
                    selected: ttl_menu_entry(current_ttl) as usize,
                })
            },
            TuiEvent::TypingInput { friend_index, input_empty, now } => {
                &&& r.0.screen == state.screen && r.0.flash == state.flash && r.0.own_onion == state.own_onion
                    && r.0.quit == state.quit
                &&& r.0.typing.was_typing == !input_empty
                &&& r.0.typing.last_started_at == if announces_start(state.typing, !input_empty, now) {
                    Some(now)
                } else {
                    state.typing.last_started_at
                }
                &&& r.1@ == if announces_start(state.typing, !input_empty, now) {
                    seq![TuiEffect::SendTyping { friend_index, presence_type: PresenceType::TypingStarted }]
                } else if announces_stop(state.typing, !input_empty) {
                    seq![TuiEffect::SendTyping { friend_index, presence_type: PresenceType::TypingStopped }]
                } else {
                    Seq::empty()
                }
            },
            TuiEvent::TorReady { onion } => {
                &&& r.1@.len() == 0
                &&& r.0.screen == state.screen && r.0.flash == state.flash && r.0.typing == state.typing
                    && r.0.quit == state.quit
                &&& text_of(r.0.own_onion) == Some(onion@)
            },
            TuiEvent::FlashExpired => {
                &&& r.1@.len() == 0
                &&& r.0.flash is None
                &&& r.0.screen == state.screen && r.0.typing == state.typing && r.0.own_onion == state.own_onion
                    && r.0.quit == state.quit
            },
        },
{
    let TuiState { screen, flash, typing, own_onion, quit } = state;
    match event {
        TuiEvent::Action(action) => match action {
            TuiAction::SendFriendRequest(code) => {
                let effects = vec![TuiEffect::SendFriendRequest { code }];
                (TuiState { screen, flash, typing, own_onion, quit }, effects)
            },
            TuiAction::AcceptFriendRequest(id) => {
                let reload = match screen {
                    Screen::ViewingFriendRequests { .. } => true,
                    _ => false,
                };
                let effects = vec![TuiEffect::AnswerRequest { id, accept: true, reload_pending: reload }];
                (TuiState { screen, flash, typing, own_onion, quit }, effects)
            },
            TuiAction::RejectFriendRequest(id) => {
                let reload = match screen {
                    Screen::ViewingFriendRequests { .. } => true,
                    _ => false,
                };
                let effects = vec![TuiEffect::AnswerRequest { id, accept: false, reload_pending: reload }];
                (TuiState { screen, flash, typing, own_onion, quit }, effects)
            },
            TuiAction::ViewFriendRequests => {
                let effects = vec![TuiEffect::LoadPendingRequests];
                (TuiState { screen, flash, typing, own_onion, quit }, effects)
            },
            TuiAction::ViewMyIdentity => {
                let next = match &own_onion {
                    Some(o) => Screen::ViewingMyIdentity { friend_code: own_friend_code(o.as_str()), onion_address: o.clone() },
                    None => Screen::ViewingMyIdentity {
                        friend_code: str_to_string("(Waiting for Tor...)"),
                        onion_address: str_to_string("(Waiting for Tor...)"),
                    },
                };
                (TuiState { screen: next, flash, typing, own_onion, quit }, Vec::new())
            },
            TuiAction::SelectFriend(idx) => {
                let next = match screen {
                    Screen::Normal { conversation_id, .. } => Screen::Normal { conversation_id, selected_friend: Some(idx) },
                    other => other,
                };
                let effects = vec![TuiEffect::OpenConversation { friend_index: idx }];
                (TuiState { screen: next, flash, typing, own_onion, quit }, effects)
            },
            TuiAction::SendMessage(content) => {
                let effects = match &screen {
                    Screen::Normal { conversation_id: Some(c), selected_friend: Some(i) } => vec![
                        TuiEffect::SendText { conversation_id: *c, friend_index: *i, content },
                    ],
                    _ => Vec::new(),
                };
                (TuiState { screen, flash, typing: TypingState::new(), own_onion, quit }, effects)
            },
            TuiAction::SetEphemeralTtl(c, ttl) => {
                let effects = vec![TuiEffect::SetEphemeralTtl { conversation_id: c, ttl }];
                (TuiState { screen, flash, typing, own_onion, quit }, effects)
            },
            TuiAction::PublishChannelPost(content, channel_type) => {
                let effects = vec![TuiEffect::PublishPost { channel_type, content }];
                (TuiState { screen, flash, typing, own_onion, quit }, effects)
            },
            TuiAction::SubscribeToChannel(p) => {
                let effects = vec![TuiEffect::Subscribe { publisher_onion: p }];
                let next = Screen::Normal { conversation_id: None, selected_friend: None };
                (TuiState { screen: next, flash, typing, own_onion, quit }, effects)
            },
            TuiAction::SelectChannel(p, t, own) => {
                let next = Screen::ViewingChannel { publisher_onion: p, channel_type: t, is_own: own };
                (TuiState { screen: next, flash, typing, own_onion, quit }, Vec::new())
            },
            TuiAction::ViewOwnChannel => {
                let publisher = match &own_onion {
                    Some(o) => o.clone(),
                    None => String::new(),
                };
                let next = Screen::ViewingChannel { publisher_onion: publisher, channel_type: str_to_string("public"), is_own: true };
                (TuiState { screen: next, flash, typing, own_onion, quit }, Vec::new())
            },
            TuiAction::ToggleNotifications => {
                let effects = vec![TuiEffect::ToggleNotifications];
                (TuiState { screen, flash, typing, own_onion, quit }, effects)
            },
            TuiAction::Quit => (TuiState { screen, flash, typing, own_onion, quit: true }, Vec::new()),
        },
        TuiEvent::FriendRequestSent { code, error } => {
            let next = match error {
                None => Screen::Normal { conversation_id: None, selected_friend: None },
                Some(e) => Screen::AddingFriend { input: code, error: Some(concat("Failed: ", e.as_str())) },
            };
            (TuiState { screen: next, flash, typing, own_onion, quit }, Vec::new())
        },
        TuiEvent::RequestAnswered { accepted, error, pending } => {
            let message = match error {
                Some(e) => e,
                None => if accepted {
                    str_to_string("Friend request accepted")
                } else {
                    str_to_string("Friend request rejected")
                },
            };
            let next = match pending {
                Some(ids) => if ids.len() == 0 {
                    Screen::Normal { conversation_id: None, selected_friend: None }
                } else {
                    Screen::ViewingFriendRequests { requests: ids, selected: 0 }
                },
                None => Screen::Normal { conversation_id: None, selected_friend: None },
            };
            (TuiState { screen: next, flash: Some(message), typing, own_onion, quit }, Vec::new())
        },
        TuiEvent::PendingRequests { ids } => {
            if ids.len() == 0 {
                let message = str_to_string("No pending friend requests");
                (TuiState { screen, flash: Some(message), typing, own_onion, quit }, Vec::new())
            } else {
                let next = Screen::ViewingFriendRequests { requests: ids, selected: 0 };
                (TuiState { screen: next, flash, typing, own_onion, quit }, Vec::new())
            }
        },
        TuiEvent::ConversationOpened { conversation_id: c } => {
            let next = match screen {
                Screen::Normal { selected_friend, .. } => Screen::Normal { conversation_id: Some(c), selected_friend },
                other => other,
            };
            (TuiState { screen: next, flash, typing, own_onion, quit }, Vec::new())
        },
        TuiEvent::MessageSent { encrypted } => {
            let next_flash = if encrypted {
                flash
            } else {
                Some(str_to_string("Message failed \u{2014} no encryption session"))
            };
            (TuiState { screen, flash: next_flash, typing, own_onion, quit }, Vec::new())
        },
        TuiEvent::NotificationsToggled { enabled } => {
            let message = if enabled {
                str_to_string("Notifications: ON")
            } else {
                str_to_string("Notifications: OFF")
            };
            (TuiState { screen, flash: Some(message), typing, own_onion, quit }, Vec::new())
        },
        TuiEvent::EphemeralMenuOpened { conversation_id: c, current_ttl } => {
            let next = Screen::SettingEphemeral { conversation_id: c, selected: ttl_menu_index(current_ttl) };
            (TuiState { screen: next, flash, typing, own_onion, quit }, Vec::new())
        },
        TuiEvent::TypingInput { friend_index, input_empty, now } => {
            let (next_typing, signal) = typing.step(input_empty, now);
            let effects = match signal {
                Some(presence_type) => vec![TuiEffect::SendTyping { friend_index, presence_type }],
                None => Vec::new(),
            };
            (TuiState { screen, flash, typing: next_typing, own_onion, quit }, effects)
        },
        TuiEvent::TorReady { onion } => (TuiState { screen, flash, typing, own_onion: Some(onion), quit }, Vec::new()),
        TuiEvent::FlashExpired => (TuiState { screen, flash: None, typing, own_onion, quit }, Vec::new()),
    }
}

} // verus!
