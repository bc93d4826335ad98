use vstd::prelude::*;

use crate::context::{InlineMessage, Message, RawInlineMessage, RawMessage, RawUpdate, Update};
use crate::textutil::{opt_view_or_empty, or_empty, str_eq};
use crate::timeparse::{parse_time_millis, time_millis, valid_time};

verus! {

/// Whether the type discriminator names a new-message update.
pub open spec fn is_new_message_type(t: Option<String>) -> bool {
    t matches Some(s) && s@ == "NewMessage"@
}

/// Whether the type discriminator names an inline-query update.
pub open spec fn is_receive_query_type(t: Option<String>) -> bool {
    t matches Some(s) && s@ == "ReceiveQuery"@
}

/// Whether a message timestamp is stale at decode time: it parses as a
/// timestamp and lies more than twenty seconds behind `now_ms`. A missing
/// or unreadable timestamp is never stale.
pub open spec fn is_stale(time: Option<String>, now_ms: u64) -> bool {
    &&& time matches Some(t)
    &&& valid_time(t@)
    &&& time_millis(t@) + 20000 < now_ms
}

/// How a decoded inline-query event relates to the raw inline payload:
/// identifiers fall back to the empty string, the rest is carried over.
pub open spec fn inline_of(ri: RawInlineMessage, im: InlineMessage) -> bool {
    &&& im.chat_id@ == opt_view_or_empty(ri.chat_id)
    &&& im.message_id@ == opt_view_or_empty(ri.message_id)
    &&& im.sender_id@ == opt_view_or_empty(ri.sender_id)
    &&& im.text == ri.text
    &&& im.aux_data == ri.aux_data
}

/// How a decoded message event relates to the raw payload: the chat
/// identifier comes from the envelope, identifiers fall back to the empty
/// string, the edited flag defaults to false, the argument list starts
/// empty, and every other field is carried over.
pub open spec fn message_of(envelope_chat: Option<String>, nm: RawMessage, m: Message) -> bool {
    &&& m.chat_id@ == opt_view_or_empty(envelope_chat)
    &&& m.message_id@ == opt_view_or_empty(nm.message_id)
    &&& m.sender_id@ == opt_view_or_empty(nm.sender_id)
    &&& m.text == nm.text
    &&& m.time == nm.time
    &&& m.is_edited == (nm.is_edited == Some(true))
    &&& m.sender_type == nm.sender_type
    &&& m.args@ == Seq::<String>::empty()
    &&& m.reply_to_message_id == nm.reply_to_message_id
    &&& m.forwarded_from == nm.forwarded_from
    &&& m.file == nm.file
    &&& m.sticker == nm.sticker
    &&& m.contact_message == nm.contact_message
    &&& m.poll == nm.poll
    &&& m.location == nm.location
    &&& m.live_location == nm.live_location
    &&& m.aux_data == nm.aux_data
}

/// What `decode` returns for a raw update at wall-clock time `now_ms`:
/// an inline-query event for a well-formed inline update, a message event
/// for a well-formed fresh new-message update, and nothing for every
/// other shape — an unrecognized or missing discriminator, a missing
/// payload, or a stale timestamp.
pub open spec fn decode_post(raw: RawUpdate, now_ms: u64, r: Option<Update>) -> bool {
    if is_receive_query_type(raw.update_type) {
        match raw.inline_message {
            Some(ri) => r matches Some(u) && u matches Update::Inline(im) && inline_of(ri, im),
            None => r is None,
        }
    } else if is_new_message_type(raw.update_type) {
        match raw.new_message {
            Some(nm) => if is_stale(nm.time, now_ms) {
                r is None
            } else {
                r matches Some(u) && u matches Update::Message(m) && message_of(raw.chat_id, nm, m)
            },
            None => r is None,
        }
    } else {
        r is None
    }
}

/// Classifies one raw update into a decoded event, or nothing.
///
/// `now_ms` is the current wall-clock time in milliseconds since the
/// epoch; a new-message update whose timestamp lies more than twenty
/// seconds behind it is dropped, so that no reply is sent to an update
/// that arrived long after it was written.
pub fn decode(raw: RawUpdate, now_ms: u64) -> (r: Option<Update>)
    ensures
        decode_post(raw, now_ms, r),
{
    let RawUpdate { update_type, chat_id, new_message, inline_message } = raw;
    let t = match update_type {
        Some(t) => t,
        None => {
            return None;
        },
    };
    if str_eq(t.as_str(), "ReceiveQuery") {
        match inline_message {
            Some(ri) => {
                let RawInlineMessage { chat_id, message_id, sender_id, text, aux_data } = ri;
                Some(
                    Update::Inline(
                        InlineMessage {
                            chat_id: or_empty(chat_id),
                            message_id: or_empty(message_id),
                            sender_id: or_empty(sender_id),
                            text,
                            aux_data,
                        },
                    ),
                )
            },
            None => None,
        }
    } else if str_eq(t.as_str(), "NewMessage") {
        match new_message {
            Some(nm) => {
                let fresh = match &nm.time {
                    Some(ts) => match parse_time_millis(ts.as_str()) {
                        Some(ms) => now_ms <= ms || now_ms - ms <= 20000,
                        None => true,
                    },
                    None => true,
                };
                if !fresh {
                    return None;
                }
                let RawMessage {
                    message_id,
                    sender_id,
                    text,
                    time,
                    is_edited,
                    sender_type,
                    reply_to_message_id,
                    forwarded_from,
                    file,
                    sticker,
                    contact_message,
                    poll,
                    location,
                    live_location,
                    aux_data,
                } = nm;
                let edited = match is_edited {
                    Some(b) => b,
                    None => false,
                };
                Some(
                    Update::Message(
                        Message {
                            chat_id: or_empty(chat_id),
                            message_id: or_empty(message_id),
                            sender_id: or_empty(sender_id),
                            text,
                            time,
                            is_edited: edited,
                            sender_type,
                            args: Vec::new(),
                            reply_to_message_id,
                            forwarded_from,
                            file,
                            sticker,
                            contact_message,
                            poll,
                            location,
                            live_location,
                            aux_data,
                        },
                    ),
                )
            },
            None => None,
        }
    } else {
        None
    }
}

/// An update whose type discriminator is neither a new message nor an
/// inline query always decodes to nothing.
pub proof fn lemma_unrecognized_decodes_to_nothing(raw: RawUpdate, now_ms: u64, r: Option<Update>)
    requires
        decode_post(raw, now_ms, r),
        !is_new_message_type(raw.update_type),
        !is_receive_query_type(raw.update_type),
    ensures
        r is None,
{
}

/// A new-message update with a readable timestamp decodes to nothing
/// exactly when the timestamp lies more than twenty seconds behind the
/// wall clock; at the boundary or below, it decodes to a message event.
pub proof fn lemma_staleness_boundary(raw: RawUpdate, now_ms: u64, r: Option<Update>)
    requires
        decode_post(raw, now_ms, r),
        is_new_message_type(raw.update_type),
        !is_receive_query_type(raw.update_type),
        raw.new_message matches Some(nm) && nm.time matches Some(t) && valid_time(t@),
    ensures
        raw.new_message matches Some(nm) && nm.time matches Some(t) && (r is None <==> time_millis(
            t@,
        ) + 20000 < now_ms),
        r matches Some(u) ==> u is Message,
{
}

} // verus!
