//! What is read out of a model's completion: the last reply of the
//! assistant.

use vstd::prelude::*;
use vstd::string::StringExecFns;
use crate::error::OrbiterError;
use crate::prompt::{messages_view, ChatMessage, MessageView, Role};

verus! {

/// The content of the last message of the assistant, if there is one.
pub open spec fn last_reply(messages: Seq<MessageView>) -> Option<Seq<char>>
    decreases messages.len(),
{
    if messages.len() == 0 {
        None
    } else if messages.last().role == Role::Assistant {
        Some(messages.last().content)
    } else {
        last_reply(messages.drop_last())
    }
}

/// What an answer without a message of the assistant is reported with.
pub open spec fn no_reply_text() -> Seq<char> {
    "the completion holds no message of the assistant"@
}

/// The text of the last message that a completion attributes to the
/// assistant. A completion without such a message is an upstream error.
pub fn last_assistant_response(completion: &Vec<ChatMessage>) -> (result: Result<
    String,
    OrbiterError,
>)
    ensures
        match last_reply(messages_view(completion@)) {
            Some(text) => result is Ok && result->Ok_0@ == text,
            None => result matches Err(OrbiterError::UpstreamError(why)) && why@
                == no_reply_text(),
        },
{
    let ghost all = messages_view(completion@);
    let mut i: usize = completion.len();
    assert(all.take(i as int) == all);
    while i > 0
        invariant
            i <= completion.len(),
            all == messages_view(completion@),
            last_reply(all.take(i as int)) == last_reply(all),
        decreases i,
    {
        i -= 1;
        assert(all.take(i + 1).drop_last() == all.take(i as int));
        assert(all.take(i + 1).last() == completion@[i as int]@);
        match completion[i].role {
            Role::Assistant => {
                return Ok(completion[i].content.clone());
            },
            _ => {},
        }
    }
    Err(
        OrbiterError::UpstreamError(
            String::from_str("the completion holds no message of the assistant"),
        ),
    )
}

/// `last_reply` is the content of the message of the assistant that no other
/// message of the assistant follows, and there is none exactly when no
/// message is the assistant's.
pub proof fn lemma_last_reply(messages: Seq<MessageView>)
    ensures
        match last_reply(messages) {
            Some(text) => exists|i: int|
                0 <= i < messages.len() && (#[trigger] messages[i]).role == Role::Assistant
                    && messages[i].content == text && forall|j: int|
                    i < j < messages.len() ==> (#[trigger] messages[j]).role != Role::Assistant,
            None => forall|j: int|
                0 <= j < messages.len() ==> (#[trigger] messages[j]).role != Role::Assistant,
        },
    decreases messages.len(),
{
    if messages.len() > 0 {
        let n = messages.len() - 1;
        if messages.last().role == Role::Assistant {
            assert(messages[n].role == Role::Assistant && messages[n].content
                == messages.last().content);
        } else {
            let front = messages.drop_last();
            lemma_last_reply(front);
            match last_reply(front) {
                Some(text) => {
                    let i = choose|i: int|
                        0 <= i < front.len() && (#[trigger] front[i]).role == Role::Assistant
                            && front[i].content == text && forall|j: int|
                            i < j < front.len() ==> (#[trigger] front[j]).role != Role::Assistant;
                    assert(messages[i] == front[i]);
                    assert forall|j: int| i < j < messages.len() implies (
                    #[trigger] messages[j]).role != Role::Assistant by {
                        if j < n {
                            assert(messages[j] == front[j]);
                        }
                    }
                },
                None => {
                    assert forall|j: int| 0 <= j < messages.len() implies (
                    #[trigger] messages[j]).role != Role::Assistant by {
                        if j < n {
                            assert(messages[j] == front[j]);
                        }
                    }
                },
            }
        }
    }
}


} // verus!
