use rubika_bot::{
    callback_rule_matches, dispatch, message_command_args, AuxData, CallbackRule, Message, Robot,
    Update,
};

fn message(text: Option<&str>, aux: Option<AuxData>) -> Message {
    Message {
        chat_id: "c1".to_string(),
        message_id: "m1".to_string(),
        sender_id: "u1".to_string(),
        text: text.map(|t| t.to_string()),
        time: None,
        is_edited: false,
        sender_type: None,
        args: Vec::new(),
        reply_to_message_id: None,
        forwarded_from: None,
        file: None,
        sticker: None,
        contact_message: None,
        poll: None,
        location: None,
        live_location: None,
        aux_data: aux,
    }
}

fn aux(button_id: Option<&str>) -> AuxData {
    AuxData { start_id: None, button_id: button_id.map(|b| b.to_string()) }
}

fn robot() -> Robot {
    Robot::new("token".to_string(), None, None, None, None, None)
}

#[test]
fn command_start_fires_with_remaining_tokens() {
    let commands = Some(vec!["start".to_string()]);
    let text = Some("/start foo bar".to_string());
    let args = message_command_args(&commands, &text).expect("the handler should fire");
    assert_eq!(args, vec!["foo".to_string(), "bar".to_string()]);
}

#[test]
fn unlisted_command_does_not_fire() {
    let commands = Some(vec!["start".to_string()]);
    let text = Some("/stop".to_string());
    assert!(message_command_args(&commands, &text).is_none());
}

#[test]
fn text_without_marker_does_not_fire() {
    let commands = Some(vec!["start".to_string()]);
    let text = Some("hello".to_string());
    assert!(message_command_args(&commands, &text).is_none());
}

#[test]
fn missing_text_does_not_fire_a_command_handler() {
    let commands = Some(vec!["start".to_string()]);
    assert!(message_command_args(&commands, &None).is_none());
}

#[test]
fn marker_alone_does_not_fire() {
    // The command token is just the marker, so the stripped name is
    // empty and matches nothing.
    let commands = Some(vec!["start".to_string()]);
    let text = Some("/ start".to_string());
    assert!(message_command_args(&commands, &text).is_none());
}

#[test]
fn leading_whitespace_defeats_the_marker() {
    let commands = Some(vec!["start".to_string()]);
    let text = Some(" /start foo".to_string());
    assert!(message_command_args(&commands, &text).is_none());
}

#[test]
fn repeated_whitespace_between_args_is_collapsed() {
    let commands = Some(vec!["start".to_string()]);
    let text = Some("/start   foo\t bar".to_string());
    let args = message_command_args(&commands, &text).expect("the handler should fire");
    assert_eq!(args, vec!["foo".to_string(), "bar".to_string()]);
}

#[test]
fn handler_without_commands_fires_with_no_args() {
    let args = message_command_args(&None, &Some("anything".to_string()));
    assert_eq!(args, Some(Vec::new()));
}

#[test]
fn bare_command_fires_with_empty_args() {
    let commands = Some(vec!["start".to_string()]);
    let text = Some("/start".to_string());
    let args = message_command_args(&commands, &text).expect("the handler should fire");
    assert!(args.is_empty());
}

#[test]
fn matching_button_triggers_callback_rule() {
    let rule = CallbackRule { button_id: Some("B1".to_string()) };
    assert!(callback_rule_matches(&rule, &Some(aux(Some("B1")))));
}

#[test]
fn other_button_does_not_trigger_callback_rule() {
    let rule = CallbackRule { button_id: Some("B1".to_string()) };
    assert!(!callback_rule_matches(&rule, &Some(aux(Some("B2")))));
}

#[test]
fn missing_aux_data_does_not_trigger_callback_rule() {
    let rule = CallbackRule { button_id: Some("B1".to_string()) };
    assert!(!callback_rule_matches(&rule, &None));
    assert!(!callback_rule_matches(&rule, &Some(aux(None))));
}

#[test]
fn callback_rule_without_button_accepts_any_aux() {
    let rule = CallbackRule { button_id: None };
    assert!(callback_rule_matches(&rule, &Some(aux(Some("B2")))));
}

#[test]
fn callback_event_reaches_only_the_first_handler() {
    let mut bot = robot();
    bot.on_callback(Some("B2".to_string()));
    bot.on_callback(Some("B1".to_string()));
    let update = Update::Message(message(None, Some(aux(Some("B1")))));
    let plan = dispatch(&bot, &update);
    // The first-registered handler claims the event; its rule wants B2,
    // so nothing fires — the matching later handler is never reached.
    assert_eq!(plan.callback, None);
    assert!(plan.messages.is_empty());
    assert!(!plan.inline_query);
}

#[test]
fn callback_event_fires_the_first_handler_when_its_rule_matches() {
    let mut bot = robot();
    bot.on_callback(Some("B1".to_string()));
    bot.on_callback(Some("B2".to_string()));
    let update = Update::Message(message(None, Some(aux(Some("B1")))));
    let plan = dispatch(&bot, &update);
    assert_eq!(plan.callback, Some(0));
    assert!(plan.messages.is_empty());
}

#[test]
fn callback_event_with_no_handlers_reaches_nothing() {
    let mut bot = robot();
    bot.on_message(false, None);
    let update = Update::Message(message(Some("hi"), Some(aux(Some("B1")))));
    let plan = dispatch(&bot, &update);
    assert_eq!(plan.callback, None);
    // Auxiliary data routes the event to the callback path; message
    // handlers are not reached even though the callback list is empty.
    assert!(plan.messages.is_empty());
}

#[test]
fn organic_message_reaches_every_handler_in_order() {
    let mut bot = robot();
    bot.on_message(false, None);
    bot.on_message(false, Some(vec!["start".to_string()]));
    bot.on_message(false, None);
    let update = Update::Message(message(Some("/start a"), None));
    let plan = dispatch(&bot, &update);
    assert_eq!(plan.callback, None);
    assert!(!plan.inline_query);
    let handlers: Vec<usize> = plan.messages.iter().map(|e| e.handler).collect();
    assert_eq!(handlers, vec![0, 1, 2]);
    assert!(plan.messages[0].args.is_empty());
    assert_eq!(plan.messages[1].args, vec!["a".to_string()]);
    assert!(plan.messages[2].args.is_empty());
}

#[test]
fn organic_message_skips_handlers_whose_rule_rejects() {
    let mut bot = robot();
    bot.on_message(false, Some(vec!["stop".to_string()]));
    bot.on_message(false, None);
    let update = Update::Message(message(Some("/start a"), None));
    let plan = dispatch(&bot, &update);
    let handlers: Vec<usize> = plan.messages.iter().map(|e| e.handler).collect();
    assert_eq!(handlers, vec![1]);
}

#[test]
fn inline_query_reaches_only_the_inline_slot() {
    let mut bot = robot();
    bot.on_message(false, None);
    let inline = rubika_bot::InlineMessage {
        chat_id: "c1".to_string(),
        message_id: "m1".to_string(),
        sender_id: "u1".to_string(),
        text: Some("q".to_string()),
        aux_data: None,
    };
    let update = Update::Inline(inline);
    let plan = dispatch(&bot, &update);
    assert!(!plan.inline_query);
    assert!(plan.messages.is_empty());
    assert_eq!(plan.callback, None);
    bot.on_inline_query();
    let plan = dispatch(&bot, &update);
    assert!(plan.inline_query);
    assert!(plan.messages.is_empty());
}
