use vstd::prelude::*;

verus! {

/// A file attachment reference.
#[derive(Debug, Clone, PartialEq)]
pub struct File {
    pub file_id: Option<String>,
    pub file_name: Option<String>,
    pub size: Option<String>,
}

/// A sticker attachment.
#[derive(Debug, Clone, PartialEq)]
pub struct Sticker {
    pub sticker_id: Option<String>,
    pub emoji_character: Option<String>,
    pub file: File,
}

/// The tally state of a poll.
#[derive(Debug, Clone, PartialEq)]
pub struct PollStatus {
    pub state: Option<String>,
    pub selection_index: Option<i32>,
    pub percent_vote_options: Vec<i32>,
    pub total_vote: Option<i32>,
    pub show_total_votes: Option<bool>,
}

/// A poll attached to a message.
#[derive(Debug, Clone, PartialEq)]
pub struct Poll {
    pub question: Option<String>,
    pub options: Vec<String>,
    pub poll_status: PollStatus,
}

/// A geographic point, with string-encoded coordinates.
#[derive(Debug, Clone, PartialEq)]
pub struct Location {
    pub latitude: Option<String>,
    pub longitude: Option<String>,
}

/// A live location share.
#[derive(Debug, Clone, PartialEq)]
pub struct LiveLocation {
    pub start_time: Option<String>,
    pub live_period: Option<i32>,
    pub current_location: Location,
    pub user_id: Option<String>,
    pub status: Option<String>,
    pub last_update_time: Option<String>,
}

/// A shared contact card.
#[derive(Debug, Clone, PartialEq)]
pub struct ContactMessage {
    pub phone_number: Option<String>,
    pub first_name: Option<String>,
    pub last_name: Option<String>,
}

/// Provenance of a forwarded message.
#[derive(Debug, Clone, PartialEq)]
pub struct ForwardedFrom {
    pub type_from: Option<String>,
    pub message_id: Option<String>,
    pub from_chat_id: Option<String>,
    pub from_sender_id: Option<String>,
}

/// Auxiliary payload attached to an update that originates from a button
/// press rather than free text.
#[derive(Debug, Clone, PartialEq)]
pub struct AuxData {
    pub start_id: Option<String>,
    pub button_id: Option<String>,
}

/// Configuration of a text-input button.
#[derive(Debug, Clone, PartialEq)]
pub struct ButtonTextbox {
    pub type_line: Option<String>,
    pub type_keypad: Option<String>,
    pub place_holder: Option<String>,
    pub title: Option<String>,
    pub default_value: Option<String>,
}

/// Configuration of a number-picker button.
#[derive(Debug, Clone, PartialEq)]
pub struct ButtonNumberPicker {
    pub min_value: Option<String>,
    pub max_value: Option<String>,
    pub default_value: Option<String>,
    pub title: Option<String>,
}

/// Configuration of a string-picker button.
#[derive(Debug, Clone, PartialEq)]
pub struct ButtonStringPicker {
    pub items: Vec<String>,
    pub default_value: Option<String>,
    pub title: Option<String>,
}

/// Configuration of a calendar button.
#[derive(Debug, Clone, PartialEq)]
pub struct ButtonCalendar {
    pub default_value: Option<String>,
    pub type_: Option<String>,
    pub min_year: Option<String>,
    pub max_year: Option<String>,
    pub title: Option<String>,
}

/// Configuration of a location-picker button.
#[derive(Debug, Clone, PartialEq)]
pub struct ButtonLocation {
    pub default_pointer_location: Location,
    pub default_map_location: Location,
    pub type_: Option<String>,
    pub title: Option<String>,
    pub location_image_url: Option<String>,
}

/// One selectable item of a selection button.
#[derive(Debug, Clone, PartialEq)]
pub struct ButtonSelectionItem {
    pub text: Option<String>,
    pub image_url: Option<String>,
    pub type_: Option<String>,
}

/// Configuration of a selection button.
#[derive(Debug, Clone, PartialEq)]
pub struct ButtonSelection {
    pub selection_id: Option<String>,
    pub search_type: Option<String>,
    pub get_type: Option<String>,
    pub items: Vec<ButtonSelectionItem>,
    pub is_multi_selection: Option<bool>,
    pub columns_count: Option<String>,
    pub title: Option<String>,
}

/// Configuration of a payment button.
#[derive(Debug, Clone, PartialEq)]
pub struct ButtonPayment {
    pub title: Option<String>,
    pub amount: i32,
    pub description: Option<String>,
}

/// One button of a keypad row.
#[derive(Debug, Clone, PartialEq)]
pub struct Button {
    pub id: Option<String>,
    pub type_: Option<String>,
    pub button_text: Option<String>,
    pub button_selection: Option<ButtonSelection>,
    pub button_calendar: Option<ButtonCalendar>,
    pub button_number_picker: Option<ButtonNumberPicker>,
    pub button_string_picker: Option<ButtonStringPicker>,
    pub button_location: Option<ButtonLocation>,
    pub button_textbox: Option<ButtonTextbox>,
    pub button_payment: Option<ButtonPayment>,
    pub url: Option<String>,
}

/// One row of buttons.
#[derive(Debug, Clone, PartialEq)]
pub struct KeypadRow {
    pub buttons: Vec<Button>,
}

/// A chat keypad: rows of buttons plus display flags.
#[derive(Debug, Clone, PartialEq)]
pub struct Keypad {
    pub rows: Vec<KeypadRow>,
    pub resize_keyboard: bool,
    pub on_time_keyboard: bool,
}

/// Descriptive data of a chat.
#[derive(Debug, Clone, PartialEq)]
pub struct Chat {
    pub chat_id: Option<String>,
    pub chat_type: Option<String>,
    pub user_id: Option<String>,
    pub first_name: Option<String>,
    pub last_name: Option<String>,
    pub title: Option<String>,
    pub username: Option<String>,
}

/// Descriptive data of a bot account.
#[derive(Debug, Clone, PartialEq)]
pub struct Bot {
    pub bot_id: Option<String>,
    pub bot_title: Option<String>,
    pub avatar: File,
    pub description: Option<String>,
    pub username: Option<String>,
    pub start_message: Option<String>,
    pub share_url: Option<String>,
}

/// A decoded message event, ready for dispatch.
#[derive(Debug, Clone, PartialEq)]
pub struct Message {
    pub chat_id: String,
    pub message_id: String,
    pub sender_id: String,
    pub text: Option<String>,
    pub time: Option<String>,
    pub is_edited: bool,
    pub sender_type: Option<String>,
    pub args: Vec<String>,
    pub reply_to_message_id: Option<String>,
    pub forwarded_from: Option<ForwardedFrom>,
    pub file: Option<File>,
    pub sticker: Option<Sticker>,
    pub contact_message: Option<ContactMessage>,
    pub poll: Option<Poll>,
    pub location: Option<Location>,
    pub live_location: Option<LiveLocation>,
    pub aux_data: Option<AuxData>,
}

impl Message {
    /// The same message with its positional-argument list replaced;
    /// used when a command handler fires and the tokens after the command
    /// become the handler's arguments.
    pub fn with_args(self, args: Vec<String>) -> (r: Message)
        ensures
            r.args == args,
            r.chat_id == self.chat_id,
            r.message_id == self.message_id,
            r.sender_id == self.sender_id,
            r.text == self.text,
            r.time == self.time,
            r.is_edited == self.is_edited,
            r.sender_type == self.sender_type,
            r.reply_to_message_id == self.reply_to_message_id,
            r.forwarded_from == self.forwarded_from,
            r.file == self.file,
            r.sticker == self.sticker,
            r.contact_message == self.contact_message,
            r.poll == self.poll,
            r.location == self.location,
            r.live_location == self.live_location,
            r.aux_data == self.aux_data,
    {
        Message { args, ..self }
    }
}

/// A decoded inline-query event.
#[derive(Debug, Clone, PartialEq)]
pub struct InlineMessage {
    pub chat_id: String,
    pub message_id: String,
    pub sender_id: String,
    pub text: Option<String>,
    pub aux_data: Option<AuxData>,
}

/// A decoded update: the closed set of event variants the dispatcher routes.
#[derive(Debug, Clone, PartialEq)]
pub enum Update {
    Message(Message),
    Inline(InlineMessage),
}

/// The raw payload nested under a new-message update, as the server sends
/// it: every field optional, exactly as it stands in the wire object.
#[derive(Debug, Clone, PartialEq)]
pub struct RawMessage {
    pub message_id: Option<String>,
    pub sender_id: Option<String>,
    pub text: Option<String>,
    pub time: Option<String>,
    pub is_edited: Option<bool>,
    pub sender_type: Option<String>,
    pub reply_to_message_id: Option<String>,
    pub forwarded_from: Option<ForwardedFrom>,
    pub file: Option<File>,
    pub sticker: Option<Sticker>,
    pub contact_message: Option<ContactMessage>,
    pub poll: Option<Poll>,
    pub location: Option<Location>,
    pub live_location: Option<LiveLocation>,
    pub aux_data: Option<AuxData>,
}

/// The raw payload nested under an inline-query update.
#[derive(Debug, Clone, PartialEq)]
pub struct RawInlineMessage {
    pub chat_id: Option<String>,
    pub message_id: Option<String>,
    pub sender_id: Option<String>,
    pub text: Option<String>,
    pub aux_data: Option<AuxData>,
}

/// One raw update as fetched from the server: the type discriminator,
/// the envelope chat identifier, and the nested payloads.
#[derive(Debug, Clone, PartialEq)]
pub struct RawUpdate {
    pub update_type: Option<String>,
    pub chat_id: Option<String>,
    pub new_message: Option<RawMessage>,
    pub inline_message: Option<RawInlineMessage>,
}

} // verus!
