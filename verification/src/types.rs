pub mod authorization_state;
pub mod chat;
pub mod chat_event_action;
pub mod chat_invite_link_member;
pub mod chat_report_reason;
pub mod check_authentication_code;
pub mod check_authentication_password;
pub mod check_database_encryption_key;
pub mod create_video_chat;
pub mod delete_chat;
pub mod get_bot_name;
pub mod get_premium_state;
pub mod group_call_video_quality;
pub mod log_stream;
pub mod payloads;
pub mod payment_form;
pub mod push_message_content;
pub mod remote_file;
pub mod session_type;
pub mod set_authentication_phone_number;
pub mod set_chat_message_ttl;
pub mod set_tdlib_parameters;
pub mod td_type;
pub mod tdlib_parameters;
pub mod toggle_group_call_is_my_video_paused;
