//! The prompt compiler: a role-delimited template and placeholder bindings
//! become an ordered sequence of chat messages.
//!
//! A template is read line by line. A line that starts with `# ` opens a new
//! message; what follows the mark names its role (`system`, `user` or
//! `assistant`). Every other line belongs to the message opened last, with
//! the bound markers replaced by their values.

use vstd::prelude::*;
use crate::binding::{bindings_view, substitute, substitute_chars, BindingView, PlaceholderBinding};
use crate::error::OrbiterError;
use crate::lines::lines_view;
use crate::text::{chars_of, push_range, tail_is};

verus! {

/// Who a chat message is attributed to.
#[derive(Clone, Copy, Debug, PartialEq, Eq, Structural)]
pub enum Role {
    System,
    User,
    Assistant,
}

/// The mathematical content of a [`ChatMessage`].
pub struct MessageView {
    pub role: Role,
    pub content: Seq<char>,
}

/// One message of a conversation.
#[derive(Clone, Debug, PartialEq, Eq)]
pub struct ChatMessage {
    pub role: Role,
    pub content: String,
}

impl View for ChatMessage {
    type V = MessageView;

    open spec fn view(&self) -> MessageView {
        MessageView { role: self.role, content: self.content@ }
    }
}

/// The views of a list of messages, in the same order.
pub open spec fn messages_view(messages: Seq<ChatMessage>) -> Seq<MessageView> {
    Seq::new(messages.len(), |i: int| messages[i]@)
}

/// The role that a header names, if it names one.
pub open spec fn role_named(token: Seq<char>) -> Option<Role> {
    if token == "system"@ {
        Some(Role::System)
    } else if token == "user"@ {
        Some(Role::User)
    } else if token == "assistant"@ {
        Some(Role::Assistant)
    } else {
        None
    }
}

/// A header is a line that starts with a hash sign and a space.
pub open spec fn is_header(line: Seq<char>) -> bool {
    line.len() >= 2 && line[0] == '#' && line[1] == ' '
}

/// `messages` with `text` added at the end of the last message's content.
pub open spec fn with_appended(messages: Seq<MessageView>, text: Seq<char>) -> Seq<MessageView>
    recommends
        messages.len() > 0,
{
    messages.drop_last().push(
        MessageView { role: messages.last().role, content: messages.last().content + text },
    )
}

/// The messages that the lines from `from` on add to `open`, the messages
/// compiled so far. A header opens a message with empty content. Any other
/// line is added to the message opened last, after substitution and followed
/// by a line feed. `None`: a header names no known role, or a line stands
/// before the first header.
pub open spec fn compile_from(
    lines: Seq<Seq<char>>,
    bindings: Seq<BindingView>,
    from: int,
    open: Seq<MessageView>,
) -> Option<Seq<MessageView>>
    decreases lines.len() - from,
{
    if from < 0 || from >= lines.len() {
        Some(open)
    } else if is_header(lines[from]) {
        match role_named(lines[from].skip(2)) {
            Some(role) => compile_from(
                lines,
                bindings,
                from + 1,
                open.push(MessageView { role, content: Seq::empty() }),
            ),
            None => None,
        }
    } else if open.len() == 0 {
        None
    } else {
        compile_from(
            lines,
            bindings,
            from + 1,
            with_appended(open, substitute(lines[from], bindings) + seq!['\n']),
        )
    }
}

/// The messages that a template compiles to, or `None` for a template that is
/// malformed: one without any line, one whose first line is no header, or one
/// with a header that names no known role.
pub open spec fn compiled(lines: Seq<Seq<char>>, bindings: Seq<BindingView>) -> Option<
    Seq<MessageView>,
> {
    if lines.len() == 0 {
        None
    } else {
        compile_from(lines, bindings, 0, Seq::empty())
    }
}

/// Whether `result` is what compiling `lines` with `bindings` gives: the
/// compiled messages, or the error of a malformed template where there are
/// none.
pub open spec fn is_prompt_of(
    lines: Seq<Seq<char>>,
    bindings: Seq<BindingView>,
    result: Result<Vec<ChatMessage>, OrbiterError>,
) -> bool {
    match result {
        Ok(messages) => compiled(lines, bindings) == Some(messages_view(messages@)),
        Err(e) => e == OrbiterError::MalformedTemplate && compiled(lines, bindings) is None,
    }
}

/// The role that the header `line` names.
fn header_role(line: &Vec<char>) -> (role: Option<Role>)
    requires
        is_header(line@),
    ensures
        role == role_named(line@.skip(2)),
{
    if tail_is(line, 2, "system") {
        Some(Role::System)
    } else if tail_is(line, 2, "user") {
        Some(Role::User)
    } else if tail_is(line, 2, "assistant") {
        Some(Role::Assistant)
    } else {
        None
    }
}

/// Compiles the lines of a template into chat messages, with each bound
/// marker replaced by its value. The result depends on the lines and the
/// bindings alone: the same inputs give the same messages.
pub fn read_markdown_prompt(lines: &Vec<String>, bindings: &Vec<PlaceholderBinding>) -> (result:
    Result<Vec<ChatMessage>, OrbiterError>)
    ensures
        is_prompt_of(lines_view(lines@), bindings_view(bindings@), result),
{
    let ghost all = lines_view(lines@);
    let ghost views = bindings_view(bindings@);
    if lines.len() == 0 {
        return Err(OrbiterError::MalformedTemplate);
    }
    let mut messages: Vec<ChatMessage> = Vec::new();
    let mut i: usize = 0;
    assert(messages_view(messages@) == Seq::<MessageView>::empty());
    while i < lines.len()
        invariant
            i <= lines.len(),
            all == lines_view(lines@),
            views == bindings_view(bindings@),
            compile_from(all, views, i as int, messages_view(messages@)) == compile_from(
                all,
                views,
                0,
                Seq::empty(),
            ),
        decreases lines.len() - i,
    {
        let line = chars_of(lines[i].as_str());
        assert(line@ == all[i as int]);
        let ghost open = messages_view(messages@);
        if line.len() >= 2 && line[0] == '#' && line[1] == ' ' {
            match header_role(&line) {
                Some(role) => {
                    let message = ChatMessage { role, content: String::new() };
                    messages.push(message);
                    assert(messages_view(messages@) == open.push(message@));
                },
                None => {
                    return Err(OrbiterError::MalformedTemplate);
                },
            }
        } else {
            match messages.pop() {
                None => {
                    return Err(OrbiterError::MalformedTemplate);
                },
                Some(last) => {
                    let replaced = substitute_chars(&line, bindings);
                    let mut content = last.content;
                    push_range(&mut content, &replaced, 0, replaced.len());
                    content.push('\n');
                    assert(replaced@.subrange(0, replaced.len() as int) == replaced@);
                    assert(content@ == last.content@ + (replaced@ + seq!['\n']));
                    let message = ChatMessage { role: last.role, content };
                    messages.push(message);
                    assert(messages_view(messages@) == with_appended(
                        open,
                        replaced@ + seq!['\n'],
                    ));
                },
            }
        }
        i += 1;
    }
    Ok(messages)
}


/// Compiling is deterministic: two results for the same lines and bindings
/// succeed or fail together, and where they succeed they hold the same
/// messages, role by role and character by character.
pub proof fn lemma_compile_deterministic(
    lines: Seq<Seq<char>>,
    bindings: Seq<BindingView>,
    first: Result<Vec<ChatMessage>, OrbiterError>,
    second: Result<Vec<ChatMessage>, OrbiterError>,
)
    requires
        is_prompt_of(lines, bindings, first),
        is_prompt_of(lines, bindings, second),
    ensures
        first is Ok <==> second is Ok,
        first is Ok ==> messages_view(first->Ok_0@) == messages_view(second->Ok_0@),
        first is Err ==> first == second,
{
}

/// The roles that the headers of the lines from `from` on name, in order.
pub open spec fn header_roles(lines: Seq<Seq<char>>, from: int) -> Seq<Role>
    decreases lines.len() - from,
{
    if from < 0 || from >= lines.len() {
        Seq::empty()
    } else if is_header(lines[from]) && role_named(lines[from].skip(2)) is Some {
        seq![role_named(lines[from].skip(2))->Some_0] + header_roles(lines, from + 1)
    } else {
        header_roles(lines, from + 1)
    }
}

/// The roles of a list of messages, in order.
pub open spec fn roles_of(messages: Seq<MessageView>) -> Seq<Role> {
    Seq::new(messages.len(), |i: int| messages[i].role)
}

/// Compiling adds one message for each header, in the order of the headers
/// and with the role that the header names; the messages that were open
/// before keep their roles.
pub proof fn lemma_compile_from_roles(
    lines: Seq<Seq<char>>,
    bindings: Seq<BindingView>,
    from: int,
    open: Seq<MessageView>,
)
    requires
        0 <= from,
        compile_from(lines, bindings, from, open) is Some,
    ensures
        roles_of(compile_from(lines, bindings, from, open)->Some_0) == roles_of(open)
            + header_roles(lines, from),
    decreases lines.len() - from,
{
    if from >= lines.len() {
        assert(roles_of(open) + Seq::<Role>::empty() == roles_of(open));
    } else if is_header(lines[from]) {
        let role = role_named(lines[from].skip(2))->Some_0;
        let next = open.push(MessageView { role, content: Seq::empty() });
        lemma_compile_from_roles(lines, bindings, from + 1, next);
        assert(roles_of(next) == roles_of(open) + seq![role]);
        assert(roles_of(open) + seq![role] + header_roles(lines, from + 1) == roles_of(open) + (
            seq![role] + header_roles(lines, from + 1)));
    } else {
        let next = with_appended(open, substitute(lines[from], bindings) + seq!['\n']);
        lemma_compile_from_roles(lines, bindings, from + 1, next);
        assert(roles_of(next) == roles_of(open));
    }
}

/// A compiled prompt has one message for each header of the template, in the
/// order of the headers and with the role that each names.
pub proof fn lemma_compiled_roles(lines: Seq<Seq<char>>, bindings: Seq<BindingView>)
    requires
        compiled(lines, bindings) is Some,
    ensures
        roles_of(compiled(lines, bindings)->Some_0) == header_roles(lines, 0),
{
    lemma_compile_from_roles(lines, bindings, 0, Seq::empty());
    assert(roles_of(Seq::<MessageView>::empty()) + header_roles(lines, 0) == header_roles(
        lines,
        0,
    ));
}

} // verus!
