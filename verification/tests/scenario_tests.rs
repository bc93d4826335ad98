use rubika_bot::{decode, dispatch, Batch, Message, RawMessage, RawUpdate, Robot, Update};

const NOW: u64 = 1_700_000_005_000;

fn echo_update(text: &str) -> RawUpdate {
    RawUpdate {
        update_type: Some("NewMessage".to_string()),
        chat_id: Some("chat-7".to_string()),
        new_message: Some(RawMessage {
            message_id: Some("m1".to_string()),
            sender_id: Some("u1".to_string()),
            text: Some(text.to_string()),
            time: Some("1700000000".to_string()),
            is_edited: None,
            sender_type: None,
            reply_to_message_id: None,
            forwarded_from: None,
            file: None,
            sticker: None,
            contact_message: None,
            poll: None,
            location: None,
            live_location: None,
            aux_data: None,
        }),
        inline_message: None,
    }
}

/// Carries out a dispatch plan the way an embedder would: each planned
/// message invocation runs its handler on the message with the plan's
/// arguments filled in. The lone handler here replies with its first
/// argument.
fn run_echo_handlers(bot: &Robot, msg: Message, replies: &mut Vec<(String, String)>) {
    let update = Update::Message(msg.clone());
    let plan = dispatch(bot, &update);
    for entry in plan.messages {
        let prepared = msg.clone().with_args(entry.args);
        if entry.handler == 0 {
            if let Some(first) = prepared.args.first() {
                replies.push((prepared.chat_id.clone(), first.clone()));
            }
        }
    }
}

#[test]
fn echo_command_replies_once_with_its_argument() {
    let mut bot = Robot::new("token".to_string(), None, None, None, None, None);
    bot.on_message(false, Some(vec!["echo".to_string()]));

    let batch = Batch {
        updates: vec![echo_update("/echo hi")],
        next_offset: Some("N1".to_string()),
    };
    let to_dispatch = bot.poll_step(batch);
    assert_eq!(to_dispatch.len(), 1);

    let mut replies: Vec<(String, String)> = Vec::new();
    for raw in to_dispatch {
        if let Some(Update::Message(m)) = decode(raw, NOW) {
            run_echo_handlers(&bot, m, &mut replies);
        }
    }

    assert_eq!(replies.len(), 1);
    assert_eq!(replies[0].0, "chat-7");
    assert_eq!(replies[0].1, "hi");
    assert_eq!(bot.offset_id.as_deref(), Some("N1"));
}

#[test]
fn non_matching_command_produces_no_reply() {
    let mut bot = Robot::new("token".to_string(), None, None, None, None, None);
    bot.on_message(false, Some(vec!["echo".to_string()]));

    let to_dispatch = bot.poll_step(Batch {
        updates: vec![echo_update("/other hi")],
        next_offset: None,
    });

    let mut replies: Vec<(String, String)> = Vec::new();
    for raw in to_dispatch {
        if let Some(Update::Message(m)) = decode(raw, NOW) {
            run_echo_handlers(&bot, m, &mut replies);
        }
    }
    assert!(replies.is_empty());
}
