use vstd::prelude::*;
use vstd::string::StrSliceExecFns;

use crate::context::{AuxData, Message, Update};
use crate::robot::{CallbackRule, MessageRule, Robot};
use crate::textutil::{
    is_ws, lemma_token_len_le, split_whitespace_tokens, split_ws, token_len, vec_contains_str,
};

verus! {

/// Whether `text` addresses one of the commands in `cmds`: it starts
/// with the command marker, and its first whitespace-delimited token,
/// marker stripped, is a member of `cmds`.
pub open spec fn command_match(cmds: Seq<Seq<char>>, text: Seq<char>) -> bool {
    &&& text.len() > 0
    &&& text[0] == '/'
    &&& cmds.contains(split_ws(text)[0].drop_first())
}

/// The positional arguments a command carries: every token after the
/// command token.
pub open spec fn command_args(text: Seq<char>) -> Seq<Seq<char>> {
    split_ws(text).drop_first()
}

/// Whether a message-handler registration fires on a message with this
/// text: with no command list it always fires; with one, the text must
/// match a listed command.
pub open spec fn message_rule_fires(rule: MessageRule, text: Option<String>) -> bool {
    match rule.commands {
        None => true,
        Some(cmds) => text matches Some(t) && command_match(cmds.deep_view(), t@),
    }
}

/// The argument list handed to a firing message handler: the command's
/// remaining tokens, or nothing when no command list was registered.
pub open spec fn message_rule_args(rule: MessageRule, text: Option<String>) -> Seq<Seq<char>> {
    match rule.commands {
        None => Seq::<Seq<char>>::empty(),
        Some(_) => match text {
            Some(t) => command_args(t@),
            None => Seq::<Seq<char>>::empty(),
        },
    }
}

/// Whether a callback-handler registration fires on an event with this
/// auxiliary data: with no target button it always fires; with one, the
/// event must carry auxiliary data naming exactly that button.
pub open spec fn callback_rule_fires(rule: CallbackRule, aux: Option<AuxData>) -> bool {
    match rule.button_id {
        None => true,
        Some(b) => aux matches Some(a) && a.button_id matches Some(ab) && ab@ == b@,
    }
}

/// Evaluates a message registration's command rule on a message text.
/// Returns the positional arguments when the rule fires, and nothing
/// when it does not.
pub fn message_command_args(commands: &Option<Vec<String>>, text: &Option<String>) -> (r: Option<
    Vec<String>,
>)
    ensures
        match *commands {
            None => r matches Some(args) && args@.len() == 0,
            Some(cmds) => match *text {
                None => r is None,
                Some(t) => if command_match(cmds.deep_view(), t@) {
                    r matches Some(args) && args.deep_view() == command_args(t@)
                } else {
                    r is None
                },
            },
        },
{
    let cmds = match commands {
        None => {
            return Some(Vec::new());
        },
        Some(cmds) => cmds,
    };
    let t = match text {
        None => {
            return None;
        },
        Some(t) => t,
    };
    let n = t.as_str().unicode_len();
    if n == 0 {
        return None;
    }
    if t.as_str().get_char(0) != '/' {
        return None;
    }
    proof {
        assert(!is_ws(t@[0]));
        lemma_token_len_le(t@);
        assert(split_ws(t@) == seq![t@.take(token_len(t@) as int)] + split_ws(
            t@.skip(token_len(t@) as int),
        ));
        assert(split_ws(t@)[0] == t@.take(token_len(t@) as int));
        assert(token_len(t@) >= 1);
        assert(split_ws(t@)[0][0] == t@[0]);
    }
    let mut toks = split_whitespace_tokens(t.as_str());
    proof {
        assert(toks.deep_view()[0] == toks@[0]@);
    }
    let first_len = toks[0].as_str().unicode_len();
    let cmd = toks[0].as_str().substring_char(1, first_len);
    proof {
        assert(cmd@ =~= split_ws(t@)[0].drop_first());
    }
    if !vec_contains_str(cmds, cmd) {
        return None;
    }
    let ghost pre = toks.deep_view();
    let _first = toks.remove(0);
    proof {
        assert(toks.deep_view() =~= pre.drop_first());
    }
    Some(toks)
}

/// Evaluates a callback registration's button rule on an event's
/// auxiliary data.
pub fn callback_rule_matches(rule: &CallbackRule, aux: &Option<AuxData>) -> (r: bool)
    ensures
        r == callback_rule_fires(*rule, *aux),
{
    match &rule.button_id {
        None => true,
        Some(b) => match aux {
            Some(a) => match &a.button_id {
                Some(ab) => crate::textutil::str_eq(ab.as_str(), b.as_str()),
                None => false,
            },
            None => false,
        },
    }
}

/// One planned invocation of a message handler: the registration index
/// and the positional arguments its callback receives.
pub struct MessageInvocation {
    pub handler: usize,
    pub args: Vec<String>,
}

/// What the dispatcher decided for one decoded update: whether to invoke
/// the inline-query slot, which callback handler to invoke (at most
/// one), and which message handlers to invoke, in registration order.
pub struct DispatchPlan {
    pub inline_query: bool,
    pub callback: Option<usize>,
    pub messages: Vec<MessageInvocation>,
}

/// How a plan's message invocations relate to the registered rules: each
/// entry names a firing rule and carries that rule's arguments, entries
/// come in strict registration order, and every firing rule is present.
pub open spec fn plan_messages_ok(
    rules: Seq<MessageRule>,
    text: Option<String>,
    entries: Seq<MessageInvocation>,
) -> bool {
    &&& forall|j: int|
        0 <= j < entries.len() ==> (#[trigger] entries[j]).handler < rules.len()
            && message_rule_fires(rules[entries[j].handler as int], text)
            && entries[j].args.deep_view() == message_rule_args(
            rules[entries[j].handler as int],
            text,
        )
    &&& forall|j1: int, j2: int|
        0 <= j1 < j2 < entries.len() ==> (#[trigger] entries[j1]).handler < (
        #[trigger] entries[j2]).handler
    &&& forall|i: int|
        0 <= i < rules.len() && message_rule_fires(#[trigger] rules[i], text) ==> exists|j: int|
            0 <= j < entries.len() && (#[trigger] entries[j]).handler == i
}

/// What `dispatch` decides for each kind of update.
///
/// An inline query reaches only the inline slot, and only if one is
/// registered. A message with auxiliary button data is a callback event:
/// only the first-registered callback handler is ever reached, and it is
/// invoked exactly when its button rule fires; message handlers are
/// never reached, even when no callback handler exists. An organic
/// message reaches every message handler whose rule fires, in
/// registration order.
pub open spec fn dispatch_post(robot: Robot, update: Update, plan: DispatchPlan) -> bool {
    match update {
        Update::Inline(_) => {
            &&& plan.inline_query == robot.inline_registered
            &&& plan.callback is None
            &&& plan.messages@.len() == 0
        },
        Update::Message(m) => {
            &&& !plan.inline_query
            &&& if m.aux_data is Some {
                &&& plan.messages@.len() == 0
                &&& plan.callback == if robot.callback_handlers@.len() > 0 && callback_rule_fires(
                    robot.callback_handlers@[0],
                    m.aux_data,
                ) {
                    Some(0usize)
                } else {
                    None::<usize>
                }
            } else {
                &&& plan.callback is None
                &&& plan_messages_ok(robot.message_handlers@, m.text, plan.messages@)
            }
        },
    }
}

/// Routes one decoded update to the registered handlers and returns the
/// plan of user callbacks to invoke. The embedder carries it out; a
/// planned message invocation whose registration also holds a caller
/// predicate runs the callback only if that predicate passes.
pub fn dispatch(robot: &Robot, update: &Update) -> (plan: DispatchPlan)
    ensures
        dispatch_post(*robot, *update, plan),
{
    match update {
        Update::Inline(_) => DispatchPlan {
            inline_query: robot.inline_registered,
            callback: None,
            messages: Vec::new(),
        },
        Update::Message(m) => {
            if m.aux_data.is_some() {
                let fires = robot.callback_handlers.len() > 0 && callback_rule_matches(
                    &robot.callback_handlers[0],
                    &m.aux_data,
                );
                DispatchPlan {
                    inline_query: false,
                    callback: if fires {
                        Some(0)
                    } else {
                        None
                    },
                    messages: Vec::new(),
                }
            } else {
                let mut entries: Vec<MessageInvocation> = Vec::new();
                let mut i: usize = 0;
                while i < robot.message_handlers.len()
                    invariant
                        0 <= i <= robot.message_handlers@.len(),
                        forall|j: int|
                            0 <= j < entries@.len() ==> (#[trigger] entries@[j]).handler < i
                                && message_rule_fires(
                                robot.message_handlers@[entries@[j].handler as int],
                                m.text,
                            ) && entries@[j].args.deep_view() == message_rule_args(
                                robot.message_handlers@[entries@[j].handler as int],
                                m.text,
                            ),
                        forall|j1: int, j2: int|
                            0 <= j1 < j2 < entries@.len() ==> (#[trigger] entries@[j1]).handler < (
                            #[trigger] entries@[j2]).handler,
                        forall|k: int|
                            0 <= k < i && message_rule_fires(
                                #[trigger] robot.message_handlers@[k],
                                m.text,
                            ) ==> exists|j: int|
                                0 <= j < entries@.len() && (#[trigger] entries@[j]).handler == k,
                    decreases robot.message_handlers@.len() - i,
                {
                    let rule = &robot.message_handlers[i];
                    let ghost pre_entries = entries@;
                    match message_command_args(&rule.commands, &m.text) {
                        Some(args) => {
                            proof {
                                if rule.commands is None {
                                    assert(args.deep_view() =~= Seq::<Seq<char>>::empty());
                                }
                            }
                            entries.push(MessageInvocation { handler: i, args });
                            proof {
                                assert(entries@[pre_entries.len() as int].handler == i);
                                assert forall|k: int|
                                    0 <= k < i + 1 && message_rule_fires(
                                        #[trigger] robot.message_handlers@[k],
                                        m.text,
                                    ) implies exists|j: int|
                                    0 <= j < entries@.len() && (#[trigger] entries@[j]).handler
                                        == k by {
                                    if k < i {
                                        let j0 = choose|j0: int|
                                            0 <= j0 < pre_entries.len() && (
                                            #[trigger] pre_entries[j0]).handler == k;
                                        assert(entries@[j0] == pre_entries[j0]);
                                        assert(entries@[j0].handler == k);
                                    } else {
                                        assert(entries@[pre_entries.len() as int].handler == k);
                                    }
                                }
                            }
                        },
                        None => {
                            proof {
                                assert(!message_rule_fires(robot.message_handlers@[i as int], m.text));
                            }
                        },
                    }
                    i += 1;
                }
                DispatchPlan { inline_query: false, callback: None, messages: entries }
            }
        },
    }
}

/// On a callback event, at most the first-registered callback handler
/// is ever reached, and none when the callback list is empty.
pub proof fn lemma_callback_one_shot(robot: Robot, update: Update, plan: DispatchPlan)
    requires
        dispatch_post(robot, update, plan),
        update matches Update::Message(m) && m.aux_data is Some,
    ensures
        plan.messages@.len() == 0,
        plan.callback matches Some(ix) ==> ix == 0,
        robot.callback_handlers@.len() == 0 ==> plan.callback is None,
{
}

/// On an organic message, every registered handler whose rule fires is
/// planned exactly once, and the plan preserves registration order.
pub proof fn lemma_message_handlers_exactly_once(
    robot: Robot,
    update: Update,
    plan: DispatchPlan,
    i: int,
)
    requires
        dispatch_post(robot, update, plan),
        update matches Update::Message(m) && m.aux_data is None,
        0 <= i < robot.message_handlers@.len(),
    ensures
        update matches Update::Message(m) ==> {
            &&& message_rule_fires(robot.message_handlers@[i], m.text) <==> exists|j: int|
                0 <= j < plan.messages@.len() && (#[trigger] plan.messages@[j]).handler == i
            &&& forall|j1: int, j2: int|
                0 <= j1 < plan.messages@.len() && 0 <= j2 < plan.messages@.len() && (
                #[trigger] plan.messages@[j1]).handler == i && (#[trigger] plan.messages@[j2]).handler
                    == i ==> j1 == j2
        },
{
    let m = update->Message_0;
    if exists|j: int| 0 <= j < plan.messages@.len() && (#[trigger] plan.messages@[j]).handler == i {
        let j = choose|j: int|
            0 <= j < plan.messages@.len() && (#[trigger] plan.messages@[j]).handler == i;
        assert(message_rule_fires(robot.message_handlers@[i], m.text));
    }
    assert forall|j1: int, j2: int|
        0 <= j1 < plan.messages@.len() && 0 <= j2 < plan.messages@.len() && (
        #[trigger] plan.messages@[j1]).handler == i && (#[trigger] plan.messages@[j2]).handler
            == i implies j1 == j2 by {
        if j1 < j2 {
            assert(plan.messages@[j1].handler < plan.messages@[j2].handler);
        }
        if j2 < j1 {
            assert(plan.messages@[j2].handler < plan.messages@[j1].handler);
        }
    }
}

} // verus!
