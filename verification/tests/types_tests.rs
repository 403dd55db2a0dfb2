use telegram_tdlib::types::chat::Chat;
use telegram_tdlib::types::chat_event_action::{ChatEventAction, ChatEventTitleChanged};
use telegram_tdlib::types::chat_invite_link_member::ChatInviteLinkMember;
use telegram_tdlib::types::delete_chat::DeleteChat;
use telegram_tdlib::types::get_premium_state::GetPremiumState;
use telegram_tdlib::types::log_stream::{LogStream, LogStreamFile};
use telegram_tdlib::types::push_message_content::{
    PushMessageContent, PushMessageContentGameScore, PushMessageContentText,
};
use telegram_tdlib::types::remote_file::RemoteFile;
use telegram_tdlib::types::session_type::{SessionType, SessionTypeAndroid};
use telegram_tdlib::types::set_chat_message_ttl::SetChatMessageTtl;
use telegram_tdlib::types::tdlib_parameters::TdlibParameters;

#[test]
fn delete_chat_builder_sets_type_tag_and_fresh_extra() {
    let request = DeleteChat::builder().chat_id(42).build();
    assert_eq!(request.chat_id(), 42);
    assert_eq!(request.td_type, "deleteChat");
    let extra = request.extra.as_ref().expect("requests carry a correlation id");
    assert_eq!(extra.chars().count(), 36);
    assert!(request.client_id.is_none());
}

#[test]
fn chat_builder_keeps_every_field_that_was_set() {
    let chat = Chat::builder()
        .id(99)
        .title(String::from("rust async"))
        .unread_count(7)
        .is_marked_as_unread(true)
        .client_data(String::from("notes"))
        .build();
    assert_eq!(chat.id(), 99);
    assert_eq!(chat.title(), "rust async");
    assert_eq!(chat.unread_count(), 7);
    assert!(chat.is_marked_as_unread());
    assert_eq!(chat.client_data(), "notes");
    // Fields never set stay at their defaults.
    assert_eq!(chat.message_ttl(), 0);
    assert!(!chat.is_blocked());
    assert!(chat.photo().is_none());
    assert!(chat.available_reactions().is_empty());
}

#[test]
fn chat_invite_link_member_getters_return_what_was_set() {
    let member = ChatInviteLinkMember::builder()
        .user_id(5)
        .joined_chat_date(1600000000)
        .approver_user_id(6)
        .build();
    assert_eq!(member.user_id(), 5);
    assert_eq!(member.joined_chat_date(), 1600000000);
    assert_eq!(member.approver_user_id(), 6);
}

#[test]
fn get_premium_state_builder_only_tags_the_request() {
    let request = GetPremiumState::builder().build();
    assert_eq!(request.td_type, "getPremiumState");
    assert!(request.extra.is_some());
}

#[test]
fn set_chat_message_ttl_round_trips_its_fields() {
    let request = SetChatMessageTtl::builder().chat_id(-100).ttl(86400).build();
    assert_eq!(request.chat_id(), -100);
    assert_eq!(request.ttl(), 86400);
    assert_eq!(request.td_type, "setChatMessageTtl");
}

#[test]
fn remote_file_tracks_upload_progress_fields() {
    let file = RemoteFile::builder()
        .id(String::from("remote-id"))
        .unique_id(String::from("unique"))
        .is_uploading_active(true)
        .uploaded_size(1024)
        .build();
    assert_eq!(file.id(), "remote-id");
    assert_eq!(file.unique_id(), "unique");
    assert!(file.is_uploading_active());
    assert!(!file.is_uploading_completed());
    assert_eq!(file.uploaded_size(), 1024);
    assert_eq!(file.td_name, "remoteFile");
}

#[test]
fn chat_event_title_changed_keeps_both_titles() {
    let action = ChatEventTitleChanged::builder()
        .old_title(String::from("before"))
        .new_title(String::from("after"))
        .build();
    assert_eq!(action.old_title(), "before");
    assert_eq!(action.new_title(), "after");
    assert_eq!(action.td_name, "chatEventTitleChanged");
}

#[test]
fn chat_event_action_default_is_the_hidden_variant() {
    let action = ChatEventAction::default();
    assert!(action._is_default());
    let wrapped = ChatEventAction::ChatEventTitleChanged(
        ChatEventTitleChanged::builder().build(),
    );
    assert!(!wrapped._is_default());
}

#[test]
fn push_message_content_builders_fill_their_fields() {
    let text = PushMessageContentText::builder()
        .text(String::from("hello"))
        .is_pinned(true)
        .build();
    assert_eq!(text.text(), "hello");
    assert!(text.is_pinned());

    let score = PushMessageContentGameScore::builder()
        .title(String::from("chess"))
        .score(1500)
        .build();
    assert_eq!(score.title(), "chess");
    assert_eq!(score.score(), 1500);

    let content = PushMessageContent::Text(text);
    assert!(!content._is_default());
    assert!(PushMessageContent::default()._is_default());
}

#[test]
fn session_type_wraps_per_platform_records() {
    let session = SessionType::Android(SessionTypeAndroid::builder().build());
    assert!(!session._is_default());
    assert!(SessionType::default()._is_default());
}

#[test]
fn log_stream_file_holds_path_and_size_limit() {
    let stream = LogStreamFile::builder()
        .path(String::from("td.log"))
        .max_file_size(10485760)
        .build();
    assert_eq!(stream.path(), "td.log");
    assert_eq!(stream.max_file_size(), 10485760);
    assert!(LogStream::default()._is_default());
}

#[test]
fn tdlib_parameters_duplicate_is_a_faithful_copy() {
    let params = TdlibParameters::builder()
        .use_test_dc(true)
        .database_directory(String::from("db"))
        .api_id(7)
        .api_hash(String::from("hash"))
        .build();
    assert_eq!(params.duplicate(), params);
    assert_eq!(TdlibParameters::default().api_id, 0);
    assert!(TdlibParameters::default().database_directory.is_empty());
}

#[test]
fn chat_event_action_reports_tag_and_correlation_id_of_its_variant() {
    let mut inner = ChatEventTitleChanged::builder().build();
    inner.extra = Some(String::from("tag-me"));
    let action = ChatEventAction::ChatEventTitleChanged(inner);
    assert_eq!(action.td_name(), "chatEventTitleChanged");
    assert_eq!(action.extra(), Some(&String::from("tag-me")));
    assert_eq!(ChatEventAction::default().td_name(), "");
    assert_eq!(ChatEventAction::default().extra(), None);
}

#[test]
fn session_type_reports_client_id_of_its_variant() {
    let mut inner = SessionTypeAndroid::builder().build();
    inner.client_id = Some(3);
    let session = SessionType::Android(inner);
    assert_eq!(session.client_id(), Some(3));
    assert_eq!(SessionType::default().client_id(), None);
}

#[test]
fn two_requests_get_distinct_correlation_ids() {
    let first = DeleteChat::builder().build();
    let second = DeleteChat::builder().build();
    assert_ne!(first.extra, second.extra, "correlation ids must be fresh per request");
}
