//! The transport over standard input and output: one message on each line, and a
//! single session.
use super::dispatch::{handle_client_message, message_step, Step};
use super::messages::{
    client_message, ClientMessage, Implementation, InvalidMessage, ServerMessage,
};
use crate::text::join;
use vstd::prelude::*;

verus! {

/// What is done about an attempt to read a line.
#[derive(Debug)]
pub enum StdinAction {
    /// The line was a message, and this is how far it gets without the API.
    /// `None` says that it is owed no answer.
    Handle(Option<Step>),
    /// The line was no message.
    Fail(InvalidMessage),
    /// Nothing is read any more.
    Stop,
}

/// What is done about an attempt to read a line: one that was read is a message,
/// or is no message, and after a failure nothing is read
/// any more.
pub fn on_stdin(line: Option<&str>, server_info: Implementation) -> (action: StdinAction)
    ensures
        match line {
            Some(line) => match client_message(line@) {
                Some(message) => {
                    &&& action matches StdinAction::Handle(step)
                    &&& message_step(step, message, server_info)
                },
                None => action is Fail,
            },
            None => action is Stop,
        },
{
    match line {
        Some(line) => match ClientMessage::parse(line) {
            Ok(message) => StdinAction::Handle(handle_client_message(message, server_info)),
            Err(error) => StdinAction::Fail(error),
        },
        None => StdinAction::Stop,
    }
}

/// What is done about the next message of the session.
#[derive(Debug)]
pub enum StdoutAction {
    /// This is written, and flushed.
    Write(String),
    /// Nothing is written any more.
    Stop,
}

/// The action is to write this text on a line of its own.
pub open spec fn writes(action: StdoutAction, json: Seq<char>) -> bool {
    action matches StdoutAction::Write(line) && line@ == json + "\n"@
}

/// What is done about the next message of the session, which comes as JSON: it
/// is written on a line of its own, and after the last one nothing more.
pub fn on_message(json: Option<String>) -> (action: StdoutAction)
    ensures
        match json {
            Some(json) => writes(action, json@),
            None => action is Stop,
        },
{
    match json {
        Some(json) => StdoutAction::Write(join(json.as_str(), "\n")),
        None => StdoutAction::Stop,
    }
}

/// Texts, each on a line of its own.
pub open spec fn lines_of(texts: Seq<Seq<char>>) -> Seq<char>
    decreases texts.len(),
{
    if texts.len() == 0 {
        Seq::empty()
    } else {
        lines_of(texts.drop_last()) + texts.last() + "\n"@
    }
}

/// No text holds a line break.
pub open spec fn unbroken(texts: Seq<Seq<char>>) -> bool {
    forall|i: int| 0 <= i < texts.len() ==> !(#[trigger] texts[i]).contains('\n')
}

/// What actions write, one after the other.
pub open spec fn written(actions: Seq<StdoutAction>) -> Seq<char>
    decreases actions.len(),
{
    if actions.len() == 0 {
        Seq::empty()
    } else {
        match actions.last() {
            StdoutAction::Write(line) => written(actions.drop_last()) + line@,
            StdoutAction::Stop => written(actions.drop_last()),
        }
    }
}

/// What is written is the messages of the session in their order, each as its
/// JSON on a line of its own, whatever that JSON is: none is lost, repeated or
/// split. After any number of them what is written so far is a start of that.
pub proof fn law_messages_are_written_in_order(
    messages: Seq<ServerMessage>,
    json: spec_fn(ServerMessage) -> Seq<char>,
    actions: Seq<StdoutAction>,
    so_far: int,
)
    requires
        actions.len() == messages.len(),
        forall|i: int|
            0 <= i < actions.len() ==> writes(#[trigger] actions[i], json(messages[i])),
        0 <= so_far <= actions.len(),
    ensures
        written(actions) == lines_of(messages.map_values(json)),
        written(actions.take(so_far)) == lines_of(messages.take(so_far).map_values(json)),
        written(actions.take(so_far)).is_prefix_of(written(actions)),
    decreases messages.len(),
{
    if messages.len() == 0 {
        assert(messages.map_values(json) =~= Seq::<Seq<char>>::empty());
        assert(actions.take(so_far) =~= actions);
        assert(messages.take(so_far) =~= messages);
    } else {
        let rest = messages.drop_last();
        let before = actions.drop_last();
        let at = messages.len() - 1;
        let within = if so_far < messages.len() {
            so_far
        } else {
            at
        };
        law_messages_are_written_in_order(rest, json, before, within);
        assert(messages.map_values(json).drop_last() =~= rest.map_values(json));
        assert(messages.map_values(json).last() == json(messages[at]));
        assert(writes(actions[at], json(messages[at])));
        assert(written(actions) =~= lines_of(messages.map_values(json)));
        if so_far < messages.len() {
            assert(before.take(so_far) =~= actions.take(so_far));
            assert(rest.take(so_far) =~= messages.take(so_far));
        } else {
            assert(actions.take(so_far) =~= actions);
            assert(messages.take(so_far) =~= messages);
        }
    }
}

/// What is written tells the messages apart: two sequences of messages without
/// line breaks in them that are written alike are the same.
pub proof fn law_lines_tell_messages_apart(left: Seq<Seq<char>>, right: Seq<Seq<char>>)
    requires
        unbroken(left),
        unbroken(right),
        lines_of(left) == lines_of(right),
    ensures
        left == right,
    decreases left.len(),
{
    reveal_strlit("\n");
    let text = lines_of(left);
    if left.len() == 0 || right.len() == 0 {
        if left.len() > 0 {
            assert(lines_of(left).len() > 0);
        }
        if right.len() > 0 {
            assert(lines_of(right).len() > 0);
        }
        assert(left =~= right);
    } else {
        let left_rest = lines_of(left.drop_last());
        let right_rest = lines_of(right.drop_last());
        lemma_lines_end(left.drop_last());
        lemma_lines_end(right.drop_last());
        assert(text == left_rest + left.last() + "\n"@);
        assert(text == right_rest + right.last() + "\n"@);
        assert(!left[left.len() - 1].contains('\n'));
        assert(!right[right.len() - 1].contains('\n'));
        lemma_last_line(left_rest, left.last(), right_rest, right.last());
        assert(unbroken(left.drop_last()));
        assert(unbroken(right.drop_last()));
        law_lines_tell_messages_apart(left.drop_last(), right.drop_last());
        assert(left =~= left.drop_last().push(left.last()));
        assert(right =~= right.drop_last().push(right.last()));
    }
}

/// Lines end with a line break.
proof fn lemma_lines_end(texts: Seq<Seq<char>>)
    ensures
        lines_of(texts).len() > 0 ==> lines_of(texts).last() == '\n',
{
    reveal_strlit("\n");
}

/// Where two texts are split before their last line, they are split alike.
proof fn lemma_last_line(
    left_rest: Seq<char>,
    left: Seq<char>,
    right_rest: Seq<char>,
    right: Seq<char>,
)
    requires
        left_rest.len() > 0 ==> left_rest.last() == '\n',
        right_rest.len() > 0 ==> right_rest.last() == '\n',
        !left.contains('\n'),
        !right.contains('\n'),
        left_rest + left + "\n"@ == right_rest + right + "\n"@,
    ensures
        left_rest == right_rest,
        left == right,
{
    reveal_strlit("\n");
    let text = left_rest + left + "\n"@;
    assert(text.len() == left_rest.len() + left.len() + 1);
    assert((right_rest + right + "\n"@).len() == right_rest.len() + right.len() + 1);
    if left_rest.len() < right_rest.len() {
        let at = right_rest.len() - 1;
        assert(text[at] == right_rest[at]);
        assert(text[at] == left[at - left_rest.len()]);
        assert(left.contains('\n'));
    } else if right_rest.len() < left_rest.len() {
        let at = left_rest.len() - 1;
        assert(text[at] == left_rest[at]);
        assert((right_rest + right + "\n"@)[at] == right[at - right_rest.len()]);
        assert(right.contains('\n'));
    } else {
        assert forall|i: int| 0 <= i < left_rest.len() implies left_rest[i] == right_rest[i] by {
            assert(text[i] == left_rest[i]);
            assert((right_rest + right + "\n"@)[i] == right_rest[i]);
        }
        assert(left_rest =~= right_rest);
        assert(left.len() == right.len());
        assert forall|i: int| 0 <= i < left.len() implies left[i] == right[i] by {
            assert(text[left_rest.len() + i] == left[i]);
            assert((right_rest + right + "\n"@)[left_rest.len() + i] == right[i]);
        }
        assert(left =~= right);
    }
}

/// A message is written as it is, with one line break behind it and nothing else.
pub proof fn law_written_line_is_the_message(action: StdoutAction, json: Seq<char>)
    ensures
        writes(action, json) <==> (action matches StdoutAction::Write(line) && line@ == json.push(
            '\n',
        )),
{
    reveal_strlit("\n");
    assert(json + "\n"@ =~= json.push('\n'));
}

} // verus!
