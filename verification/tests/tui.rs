use chattor::protocol::message::PresenceType;
use chattor::ui::tui::{flash_expired, tui_step, Screen, TuiAction, TuiEffect, TuiEvent, TuiState};

fn home_state() -> TuiState {
    TuiState::new()
}

fn is_home(s: &TuiState) -> bool {
    matches!(s.screen, Screen::Normal { conversation_id: None, selected_friend: None })
}

#[test]
fn tui_starts_at_home() {
    let s = home_state();
    assert!(is_home(&s));
    assert!(s.flash.is_none());
    assert!(s.own_onion.is_none());
    assert!(!s.quit);
}

#[test]
fn tui_friend_request_is_handed_to_the_loop() {
    let (s, effects) = tui_step(home_state(), TuiEvent::Action(TuiAction::SendFriendRequest("abc".to_string())));
    assert!(is_home(&s));
    assert_eq!(effects.len(), 1);
    assert!(matches!(&effects[0], TuiEffect::SendFriendRequest { code } if code == "abc"));
}

#[test]
fn tui_failed_friend_request_reopens_dialog_with_error() {
    let (s, effects) = tui_step(
        home_state(),
        TuiEvent::FriendRequestSent { code: "bad code".to_string(), error: Some("Invalid friend code".to_string()) },
    );
    assert!(effects.is_empty());
    match s.screen {
        Screen::AddingFriend { input, error } => {
            assert_eq!(input, "bad code");
            assert_eq!(error.as_deref(), Some("Failed: Invalid friend code"));
        }
        other => panic!("unexpected screen {:?}", other),
    }
}

#[test]
fn tui_sent_friend_request_returns_home() {
    let (s, _) = tui_step(home_state(), TuiEvent::FriendRequestSent { code: "x".to_string(), error: None });
    assert!(is_home(&s));
}

#[test]
fn tui_accept_from_request_list_reloads_pending() {
    let (s, _) = tui_step(home_state(), TuiEvent::PendingRequests { ids: vec![7, 9] });
    let (s, effects) = tui_step(s, TuiEvent::Action(TuiAction::AcceptFriendRequest(7)));
    assert!(matches!(effects[0], TuiEffect::AnswerRequest { id: 7, accept: true, reload_pending: true }));
    let (s, effects) = tui_step(
        s,
        TuiEvent::RequestAnswered { accepted: true, error: None, pending: Some(vec![]) },
    );
    assert!(effects.is_empty());
    assert!(is_home(&s));
    assert_eq!(s.flash.as_deref(), Some("Friend request accepted"));
}

#[test]
fn tui_reject_with_requests_left_shows_them() {
    let (s, _) = tui_step(
        home_state(),
        TuiEvent::RequestAnswered { accepted: false, error: None, pending: Some(vec![3]) },
    );
    assert_eq!(s.flash.as_deref(), Some("Friend request rejected"));
    match s.screen {
        Screen::ViewingFriendRequests { requests, selected } => {
            assert_eq!(requests, vec![3]);
            assert_eq!(selected, 0);
        }
        other => panic!("unexpected screen {:?}", other),
    }
}

#[test]
fn tui_no_pending_requests_flashes() {
    let (s, _) = tui_step(home_state(), TuiEvent::PendingRequests { ids: vec![] });
    assert!(is_home(&s));
    assert_eq!(s.flash.as_deref(), Some("No pending friend requests"));
}

#[test]
fn tui_identity_before_tor_waits() {
    let (s, effects) = tui_step(home_state(), TuiEvent::Action(TuiAction::ViewMyIdentity));
    assert!(effects.is_empty());
    match s.screen {
        Screen::ViewingMyIdentity { friend_code, onion_address } => {
            assert_eq!(friend_code, "(Waiting for Tor...)");
            assert_eq!(onion_address, "(Waiting for Tor...)");
        }
        other => panic!("unexpected screen {:?}", other),
    }
}

#[test]
fn tui_identity_after_tor_shows_address() {
    let (s, _) = tui_step(home_state(), TuiEvent::TorReady { onion: "not-an-onion".to_string() });
    assert_eq!(s.own_onion.as_deref(), Some("not-an-onion"));
    let (s, _) = tui_step(s, TuiEvent::Action(TuiAction::ViewMyIdentity));
    match s.screen {
        Screen::ViewingMyIdentity { friend_code, onion_address } => {
            assert_eq!(friend_code, "unknown");
            assert_eq!(onion_address, "not-an-onion");
        }
        other => panic!("unexpected screen {:?}", other),
    }
}

#[test]
fn tui_message_goes_to_open_conversation() {
    let (s, effects) = tui_step(home_state(), TuiEvent::Action(TuiAction::SelectFriend(2)));
    assert!(matches!(effects[0], TuiEffect::OpenConversation { friend_index: 2 }));
    let (s, _) = tui_step(s, TuiEvent::ConversationOpened { conversation_id: 11 });
    let (s, effects) = tui_step(s, TuiEvent::Action(TuiAction::SendMessage("hi".to_string())));
    assert_eq!(effects.len(), 1);
    assert!(matches!(&effects[0],
        TuiEffect::SendText { conversation_id: 11, friend_index: 2, content } if content == "hi"));
    assert!(!s.typing.was_typing);
}

#[test]
fn tui_message_without_conversation_does_nothing() {
    let (_, effects) = tui_step(home_state(), TuiEvent::Action(TuiAction::SendMessage("hi".to_string())));
    assert!(effects.is_empty());
}

#[test]
fn tui_unencrypted_message_flashes() {
    let (s, _) = tui_step(home_state(), TuiEvent::MessageSent { encrypted: false });
    assert_eq!(s.flash.as_deref(), Some("Message failed \u{2014} no encryption session"));
    let (s, _) = tui_step(s, TuiEvent::FlashExpired);
    assert!(s.flash.is_none());
}

#[test]
fn tui_ephemeral_menu_highlights_current_setting() {
    let (s, _) = tui_step(home_state(), TuiEvent::EphemeralMenuOpened { conversation_id: 4, current_ttl: Some(3600) });
    assert!(matches!(s.screen, Screen::SettingEphemeral { conversation_id: 4, selected: 2 }));
    let (s, _) = tui_step(s, TuiEvent::EphemeralMenuOpened { conversation_id: 4, current_ttl: Some(42) });
    assert!(matches!(s.screen, Screen::SettingEphemeral { conversation_id: 4, selected: 0 }));
}

#[test]
fn tui_typing_is_announced_then_debounced_then_stopped() {
    let sec: u128 = 1_000_000_000;
    let (s, effects) = tui_step(home_state(), TuiEvent::TypingInput { friend_index: 1, input_empty: false, now: 10 * sec });
    assert!(matches!(effects[0], TuiEffect::SendTyping { friend_index: 1, presence_type: PresenceType::TypingStarted }));
    let (s, effects) = tui_step(s, TuiEvent::TypingInput { friend_index: 1, input_empty: false, now: 11 * sec });
    assert!(effects.is_empty());
    let (s, effects) = tui_step(s, TuiEvent::TypingInput { friend_index: 1, input_empty: false, now: 14 * sec });
    assert!(matches!(effects[0], TuiEffect::SendTyping { presence_type: PresenceType::TypingStarted, .. }));
    let (_, effects) = tui_step(s, TuiEvent::TypingInput { friend_index: 1, input_empty: true, now: 15 * sec });
    assert!(matches!(effects[0], TuiEffect::SendTyping { presence_type: PresenceType::TypingStopped, .. }));
}

#[test]
fn tui_channels_and_notifications() {
    let (s, effects) = tui_step(
        home_state(),
        TuiEvent::Action(TuiAction::PublishChannelPost("post".to_string(), "public".to_string())),
    );
    assert!(matches!(&effects[0], TuiEffect::PublishPost { channel_type, content } if channel_type == "public" && content == "post"));
    let (s, effects) = tui_step(s, TuiEvent::Action(TuiAction::SubscribeToChannel("pub.onion".to_string())));
    assert!(is_home(&s));
    assert!(matches!(&effects[0], TuiEffect::Subscribe { publisher_onion } if publisher_onion == "pub.onion"));
    let (s, _) = tui_step(s, TuiEvent::Action(TuiAction::SelectChannel("pub.onion".to_string(), "friends".to_string(), false)));
    assert!(matches!(&s.screen, Screen::ViewingChannel { is_own: false, .. }));
    let (s, _) = tui_step(s, TuiEvent::Action(TuiAction::ViewOwnChannel));
    assert!(matches!(&s.screen, Screen::ViewingChannel { channel_type, is_own: true, .. } if channel_type == "public"));
    let (s, effects) = tui_step(s, TuiEvent::Action(TuiAction::ToggleNotifications));
    assert!(matches!(effects[0], TuiEffect::ToggleNotifications));
    let (s, _) = tui_step(s, TuiEvent::NotificationsToggled { enabled: false });
    assert_eq!(s.flash.as_deref(), Some("Notifications: OFF"));
    let (s, effects) = tui_step(s, TuiEvent::Action(TuiAction::Quit));
    assert!(effects.is_empty());
    assert!(s.quit);
}

#[test]
fn tui_flash_lasts_two_seconds() {
    let sec: u128 = 1_000_000_000;
    assert!(!flash_expired(5 * sec, 6 * sec));
    assert!(flash_expired(5 * sec, 7 * sec));
    assert!(!flash_expired(5 * sec, 4 * sec));
}
