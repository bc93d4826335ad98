#![allow(unused_imports)]

use vstd::prelude::*;

mod builders;
mod context;
mod decode;
mod dispatch;
mod error;
mod fileutil;
mod jobs;
mod logger;
mod robot;
mod textutil;
mod timeparse;

pub use builders::{opt_is_str, plain_button, ChatKeypadBuilder, InlineBuilder};
pub use context::{
    AuxData, Bot, Button, ButtonCalendar, ButtonLocation, ButtonNumberPicker, ButtonPayment,
    ButtonSelection, ButtonSelectionItem, ButtonStringPicker, ButtonTextbox, Chat, ContactMessage,
    File, ForwardedFrom, InlineMessage, Keypad, KeypadRow, LiveLocation, Location, Message, Poll,
    PollStatus, RawInlineMessage, RawMessage, RawUpdate, Sticker, Update,
};
pub use decode::{
    decode, decode_post, inline_of, is_new_message_type, is_receive_query_type, is_stale,
    lemma_staleness_boundary, lemma_unrecognized_decodes_to_nothing, message_of,
};
pub use dispatch::{
    callback_rule_fires, callback_rule_matches, command_args, command_match, dispatch,
    dispatch_post, lemma_callback_one_shot, lemma_message_handlers_exactly_once,
    message_command_args, message_rule_args, message_rule_fires, plan_messages_ok, DispatchPlan,
    MessageInvocation,
};
pub use error::APIRequestError;
pub use fileutil::{
    after_last_slash, base_name, default_file_name, default_name_view, is_http_source,
    is_media_type, resolve_file_source, starts_with_http, validate_media_type, FileSource,
};
pub use jobs::Job;
pub use logger::{log_debug, log_error, log_info};
pub use robot::{
    entry_value, same_config, same_registry, session_value, Batch, CallbackRule, ChatSession,
    MessageRule, Robot, SessionEntry,
};
pub use textutil::{
    display_name, is_ws, opt_view_or_empty, or_empty, split_whitespace_tokens, split_ws, str_eq,
    token_len, vec_contains_str,
};
pub use timeparse::{parse_time_millis, time_millis, valid_time};
