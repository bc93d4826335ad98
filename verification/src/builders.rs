use vstd::prelude::*;
use vstd::string::StringExecFns;

use crate::context::{
    Button, ButtonCalendar, ButtonLocation, ButtonNumberPicker, ButtonPayment, ButtonSelection,
    ButtonStringPicker, ButtonTextbox, Keypad, KeypadRow, Location,
};

verus! {

/// Whether an optional string field holds exactly these characters.
pub open spec fn opt_is_str(o: Option<String>, s: Seq<char>) -> bool {
    o matches Some(v) && v@ == s
}

/// Whether a button carries none of the widget payloads and no link.
pub open spec fn plain_button(b: Button) -> bool {
    &&& b.button_selection is None
    &&& b.button_calendar is None
    &&& b.button_number_picker is None
    &&& b.button_string_picker is None
    &&& b.button_location is None
    &&& b.button_textbox is None
    &&& b.button_payment is None
    &&& b.url is None
}

/// A button carrying only an identifier, a type label and a caption.
fn labeled_button(id: &str, type_label: &str, text: &str) -> (r: Button)
    ensures
        opt_is_str(r.id, id@),
        opt_is_str(r.type_, type_label@),
        opt_is_str(r.button_text, text@),
        plain_button(r),
{
    Button {
        id: Some(String::from_str(id)),
        type_: Some(String::from_str(type_label)),
        button_text: Some(String::from_str(text)),
        button_selection: None,
        button_calendar: None,
        button_number_picker: None,
        button_string_picker: None,
        button_location: None,
        button_textbox: None,
        button_payment: None,
        url: None,
    }
}

/// Builds the rows of an inline keypad, one fluent call per row.
pub struct InlineBuilder {
    pub rows: Vec<KeypadRow>,
}

impl InlineBuilder {
    /// An empty inline keypad under construction.
    pub fn new() -> (r: InlineBuilder)
        ensures
            r.rows@.len() == 0,
    {
        InlineBuilder { rows: Vec::new() }
    }

    /// Appends one row of buttons; a row may not be empty.
    pub fn row(self, buttons: Vec<Button>) -> (r: InlineBuilder)
        requires
            buttons@.len() > 0,
        ensures
            r.rows@ == self.rows@.push((KeypadRow { buttons })),
    {
        let mut rows = self.rows;
        rows.push(KeypadRow { buttons });
        InlineBuilder { rows }
    }

    /// A plain tappable button.
    pub fn button_simple(&self, id: &str, text: &str) -> (r: Button)
        ensures
            opt_is_str(r.id, id@),
            opt_is_str(r.type_, "Simple"@),
            opt_is_str(r.button_text, text@),
            plain_button(r),
    {
        labeled_button(id, "Simple", text)
    }

    /// A button opening a selection list.
    pub fn button_selection(&self, id: &str, text: &str, selection: ButtonSelection) -> (r: Button)
        ensures
            opt_is_str(r.id, id@),
            opt_is_str(r.type_, "Selection"@),
            opt_is_str(r.button_text, text@),
            r.button_selection == Some(selection),
            r.button_calendar is None,
            r.button_number_picker is None,
            r.button_string_picker is None,
            r.button_location is None,
            r.button_textbox is None,
            r.button_payment is None,
            r.url is None,
    {
        let mut b = labeled_button(id, "Selection", text);
        b.button_selection = Some(selection);
        b
    }

    /// A button opening a calendar picker; the title doubles as the
    /// caption.
    pub fn button_calendar(
        &self,
        id: &str,
        title: &str,
        type_label: &str,
        default_value: Option<String>,
        min_year: Option<String>,
        max_year: Option<String>,
    ) -> (r: Button)
        ensures
            opt_is_str(r.id, id@),
            opt_is_str(r.type_, "Calendar"@),
            opt_is_str(r.button_text, title@),
            r.button_calendar matches Some(c) && c.default_value == default_value && c.min_year
                == min_year && c.max_year == max_year && opt_is_str(c.title, title@) && opt_is_str(
                c.type_,
                type_label@,
            ),
            r.button_selection is None,
            r.button_number_picker is None,
            r.button_string_picker is None,
            r.button_location is None,
            r.button_textbox is None,
            r.button_payment is None,
            r.url is None,
    {
        let mut b = labeled_button(id, "Calendar", title);
        b.button_calendar = Some(
            ButtonCalendar {
                default_value,
                type_: Some(String::from_str(type_label)),
                min_year,
                max_year,
                title: Some(String::from_str(title)),
            },
        );
        b
    }

    /// A button opening a number picker; the title doubles as the
    /// caption.
    pub fn button_number_picker(
        &self,
        id: &str,
        title: &str,
        min_value: &str,
        max_value: &str,
        default_value: Option<String>,
    ) -> (r: Button)
        ensures
            opt_is_str(r.id, id@),
            opt_is_str(r.type_, "NumberPicker"@),
            opt_is_str(r.button_text, title@),
            r.button_number_picker matches Some(p) && opt_is_str(p.min_value, min_value@)
                && opt_is_str(p.max_value, max_value@) && p.default_value == default_value
                && opt_is_str(p.title, title@),
            r.button_selection is None,
            r.button_calendar is None,
            r.button_string_picker is None,
            r.button_location is None,
            r.button_textbox is None,
            r.button_payment is None,
            r.url is None,
    {
        let mut b = labeled_button(id, "NumberPicker", title);
        b.button_number_picker = Some(
            ButtonNumberPicker {
                min_value: Some(String::from_str(min_value)),
                max_value: Some(String::from_str(max_value)),
                default_value,
                title: Some(String::from_str(title)),
            },
        );
        b
    }

    /// A button opening a string picker; with no title the caption
    /// falls back to "choice".
    pub fn button_string_picker(
        &self,
        id: &str,
        title: Option<String>,
        items: Vec<String>,
        default_value: Option<String>,
    ) -> (r: Button)
        ensures
            opt_is_str(r.id, id@),
            opt_is_str(r.type_, "StringPicker"@),
            match title {
                Some(t) => opt_is_str(r.button_text, t@),
                None => opt_is_str(r.button_text, "choice"@),
            },
            r.button_string_picker matches Some(p) && p.items == items && p.default_value
                == default_value && p.title == title,
            r.button_selection is None,
            r.button_calendar is None,
            r.button_number_picker is None,
            r.button_location is None,
            r.button_textbox is None,
            r.button_payment is None,
            r.url is None,
    {
        let caption = match &title {
            Some(t) => t.clone(),
            None => String::from_str("choice"),
        };
        let mut b = labeled_button(id, "StringPicker", caption.as_str());
        b.button_string_picker = Some(ButtonStringPicker { items, default_value, title });
        b
    }

    /// A button opening a map view; with no title the caption falls
    /// back to "location".
    pub fn button_location(
        &self,
        id: &str,
        type_label: &str,
        location_image_url: &str,
        default_pointer_location: Location,
        default_map_location: Location,
        title: Option<String>,
    ) -> (r: Button)
        ensures
            opt_is_str(r.id, id@),
            opt_is_str(r.type_, "Location"@),
            match title {
                Some(t) => opt_is_str(r.button_text, t@),
                None => opt_is_str(r.button_text, "location"@),
            },
            r.button_location matches Some(l) && l.default_pointer_location
                == default_pointer_location && l.default_map_location == default_map_location
                && opt_is_str(l.type_, type_label@) && l.title == title && opt_is_str(
                l.location_image_url,
                location_image_url@,
            ),
            r.button_selection is None,
            r.button_calendar is None,
            r.button_number_picker is None,
            r.button_string_picker is None,
            r.button_textbox is None,
            r.button_payment is None,
            r.url is None,
    {
        let caption = match &title {
            Some(t) => t.clone(),
            None => String::from_str("location"),
        };
        let mut b = labeled_button(id, "Location", caption.as_str());
        b.button_location = Some(
            ButtonLocation {
                default_pointer_location,
                default_map_location,
                type_: Some(String::from_str(type_label)),
                title,
                location_image_url: Some(String::from_str(location_image_url)),
            },
        );
        b
    }

    /// A button opening a text box; with no title the caption falls
    /// back to "Text".
    pub fn button_textbox(
        &self,
        id: &str,
        title: Option<String>,
        type_line: &str,
        type_keypad: &str,
        place_holder: Option<String>,
        default_value: Option<String>,
    ) -> (r: Button)
        ensures
            opt_is_str(r.id, id@),
            opt_is_str(r.type_, "Textbox"@),
            match title {
                Some(t) => opt_is_str(r.button_text, t@),
                None => opt_is_str(r.button_text, "Text"@),
            },
            r.button_textbox matches Some(t) && opt_is_str(t.type_line, type_line@) && opt_is_str(
                t.type_keypad,
                type_keypad@,
            ) && t.place_holder == place_holder && t.default_value == default_value && t.title
                == title,
            r.button_selection is None,
            r.button_calendar is None,
            r.button_number_picker is None,
            r.button_string_picker is None,
            r.button_location is None,
            r.button_payment is None,
            r.url is None,
    {
        let caption = match &title {
            Some(t) => t.clone(),
            None => String::from_str("Text"),
        };
        let mut b = labeled_button(id, "Textbox", caption.as_str());
        b.button_textbox = Some(
            ButtonTextbox {
                type_line: Some(String::from_str(type_line)),
                type_keypad: Some(String::from_str(type_keypad)),
                place_holder,
                title,
                default_value,
            },
        );
        b
    }

    /// A payment button; the title doubles as the caption.
    pub fn button_payment(
        &self,
        id: &str,
        title: &str,
        amount: i32,
        description: Option<String>,
    ) -> (r: Button)
        ensures
            opt_is_str(r.id, id@),
            opt_is_str(r.type_, "Payment"@),
            opt_is_str(r.button_text, title@),
            r.button_payment matches Some(p) && opt_is_str(p.title, title@) && p.amount == amount
                && p.description == description,
            r.button_selection is None,
            r.button_calendar is None,
            r.button_number_picker is None,
            r.button_string_picker is None,
            r.button_location is None,
            r.button_textbox is None,
            r.url is None,
    {
        let mut b = labeled_button(id, "Payment", title);
        b.button_payment = Some(
            ButtonPayment { title: Some(String::from_str(title)), amount, description },
        );
        b
    }

    /// A button that opens a link.
    pub fn button_link(&self, id: &str, title: &str, url: &str) -> (r: Button)
        ensures
            opt_is_str(r.id, id@),
            opt_is_str(r.type_, "Link"@),
            opt_is_str(r.button_text, title@),
            opt_is_str(r.url, url@),
            r.button_selection is None,
            r.button_calendar is None,
            r.button_number_picker is None,
            r.button_string_picker is None,
            r.button_location is None,
            r.button_textbox is None,
            r.button_payment is None,
    {
        let mut b = labeled_button(id, "Link", title);
        b.url = Some(String::from_str(url));
        b
    }

    /// A button that takes a photo with the camera.
    pub fn button_camera_image(&self, id: &str, title: &str) -> (r: Button)
        ensures
            opt_is_str(r.id, id@),
            opt_is_str(r.type_, "CameraImage"@),
            opt_is_str(r.button_text, title@),
            plain_button(r),
    {
        labeled_button(id, "CameraImage", title)
    }

    /// A button that records a video with the camera.
    pub fn button_camera_video(&self, id: &str, title: &str) -> (r: Button)
        ensures
            opt_is_str(r.id, id@),
            opt_is_str(r.type_, "CameraVideo"@),
            opt_is_str(r.button_text, title@),
            plain_button(r),
    {
        labeled_button(id, "CameraVideo", title)
    }

    /// A button that picks an image from the gallery.
    pub fn button_gallery_image(&self, id: &str, title: &str) -> (r: Button)
        ensures
            opt_is_str(r.id, id@),
            opt_is_str(r.type_, "GalleryImage"@),
            opt_is_str(r.button_text, title@),
            plain_button(r),
    {
        labeled_button(id, "GalleryImage", title)
    }

    /// A button that picks a video from the gallery.
    pub fn button_gallery_video(&self, id: &str, title: &str) -> (r: Button)
        ensures
            opt_is_str(r.id, id@),
            opt_is_str(r.type_, "GalleryVideo"@),
            opt_is_str(r.button_text, title@),
            plain_button(r),
    {
        labeled_button(id, "GalleryVideo", title)
    }

    /// A button that picks a file.
    pub fn button_file(&self, id: &str, title: &str) -> (r: Button)
        ensures
            opt_is_str(r.id, id@),
            opt_is_str(r.type_, "File"@),
            opt_is_str(r.button_text, title@),
            plain_button(r),
    {
        labeled_button(id, "File", title)
    }

    /// A button that picks an audio file.
    pub fn button_audio(&self, id: &str, title: &str) -> (r: Button)
        ensures
            opt_is_str(r.id, id@),
            opt_is_str(r.type_, "Audio"@),
            opt_is_str(r.button_text, title@),
            plain_button(r),
    {
        labeled_button(id, "Audio", title)
    }

    /// A button that records audio.
    pub fn button_record_audio(&self, id: &str, title: &str) -> (r: Button)
        ensures
            opt_is_str(r.id, id@),
            opt_is_str(r.type_, "RecordAudio"@),
            opt_is_str(r.button_text, title@),
            plain_button(r),
    {
        labeled_button(id, "RecordAudio", title)
    }

    /// A button that shares the user's phone number.
    pub fn button_my_phone_number(&self, id: &str, title: &str) -> (r: Button)
        ensures
            opt_is_str(r.id, id@),
            opt_is_str(r.type_, "MyPhoneNumber"@),
            opt_is_str(r.button_text, title@),
            plain_button(r),
    {
        labeled_button(id, "MyPhoneNumber", title)
    }

    /// A button that shares the user's location.
    pub fn button_my_location(&self, id: &str, title: &str) -> (r: Button)
        ensures
            opt_is_str(r.id, id@),
            opt_is_str(r.type_, "MyLocation"@),
            opt_is_str(r.button_text, title@),
            plain_button(r),
    {
        labeled_button(id, "MyLocation", title)
    }

    /// A button that asks another user for a phone number.
    pub fn button_ask_my_phone_number(&self, id: &str, title: &str) -> (r: Button)
        ensures
            opt_is_str(r.id, id@),
            opt_is_str(r.type_, "AskMyPhoneNumber"@),
            opt_is_str(r.button_text, title@),
            plain_button(r),
    {
        labeled_button(id, "AskMyPhoneNumber", title)
    }

    /// A button that asks another user for a location.
    pub fn button_ask_location(&self, id: &str, title: &str) -> (r: Button)
        ensures
            opt_is_str(r.id, id@),
            opt_is_str(r.type_, "AskLocation"@),
            opt_is_str(r.button_text, title@),
            plain_button(r),
    {
        labeled_button(id, "AskLocation", title)
    }

    /// A button that scans a barcode.
    pub fn button_barcode(&self, id: &str, title: &str) -> (r: Button)
        ensures
            opt_is_str(r.id, id@),
            opt_is_str(r.type_, "Barcode"@),
            opt_is_str(r.button_text, title@),
            plain_button(r),
    {
        labeled_button(id, "Barcode", title)
    }

    /// The finished inline keypad: its rows, in the order they were
    /// added.
    pub fn build(self) -> (r: Vec<KeypadRow>)
        ensures
            r == self.rows,
    {
        self.rows
    }
}

impl Default for InlineBuilder {
    fn default() -> (r: InlineBuilder)
        ensures
            r.rows@.len() == 0,
    {
        InlineBuilder::new()
    }
}

/// Builds a chat keypad: rows of buttons plus the display flags.
pub struct ChatKeypadBuilder {
    pub rows: Vec<KeypadRow>,
}

impl ChatKeypadBuilder {
    /// An empty chat keypad under construction.
    pub fn new() -> (r: ChatKeypadBuilder)
        ensures
            r.rows@.len() == 0,
    {
        ChatKeypadBuilder { rows: Vec::new() }
    }

    /// Appends one row of buttons.
    pub fn row(self, buttons: Vec<Button>) -> (r: ChatKeypadBuilder)
        ensures
            r.rows@ == self.rows@.push((KeypadRow { buttons })),
    {
        let mut rows = self.rows;
        rows.push(KeypadRow { buttons });
        ChatKeypadBuilder { rows }
    }

    /// A chat-keypad button; with no type label the type falls back to
    /// "Simple".
    pub fn button(&self, id: &str, text: &str, type_label: Option<String>) -> (r: Button)
        ensures
            opt_is_str(r.id, id@),
            match type_label {
                Some(t) => opt_is_str(r.type_, t@),
                None => opt_is_str(r.type_, "Simple"@),
            },
            opt_is_str(r.button_text, text@),
            plain_button(r),
    {
        match type_label {
            Some(t) => labeled_button(id, t.as_str(), text),
            None => labeled_button(id, "Simple", text),
        }
    }

    /// The finished chat keypad; resizing defaults to on and the
    /// one-time flag to off.
    pub fn build(self, resize_keyboard: Option<bool>, on_time_keyboard: Option<bool>) -> (r: Keypad)
        ensures
            r.rows == self.rows,
            r.resize_keyboard == (match resize_keyboard {
                Some(b) => b,
                None => true,
            }),
            r.on_time_keyboard == (match on_time_keyboard {
                Some(b) => b,
                None => false,
            }),
    {
        Keypad {
            rows: self.rows,
            resize_keyboard: match resize_keyboard {
                Some(b) => b,
                None => true,
            },
            on_time_keyboard: match on_time_keyboard {
                Some(b) => b,
                None => false,
            },
        }
    }
}

impl Default for ChatKeypadBuilder {
    fn default() -> (r: ChatKeypadBuilder)
        ensures
            r.rows@.len() == 0,
    {
        ChatKeypadBuilder::new()
    }
}

} // verus!
