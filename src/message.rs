//! Chat messages and their roles.

use vstd::prelude::*;

verus! {

/// The role of a chat message.
#[derive(Clone, Copy, Debug, PartialEq, Eq, Structural)]
pub enum Role {
    System,
    User,
    Assistant,
    Tool,
}

/// The wire name of a role.
pub open spec fn role_text(r: Role) -> Seq<char> {
    match r {
        Role::System => "system"@,
        Role::User => "user"@,
        Role::Assistant => "assistant"@,
        Role::Tool => "tool"@,
    }
}

/// The role whose wire name is `t`, if any.
pub open spec fn role_of_text(t: Seq<char>) -> Option<Role> {
    if t == "system"@ {
        Some(Role::System)
    } else if t == "user"@ {
        Some(Role::User)
    } else if t == "assistant"@ {
        Some(Role::Assistant)
    } else if t == "tool"@ {
        Some(Role::Tool)
    } else {
        None
    }
}

/// Reading back the wire name of a role gives that role.
pub proof fn lemma_role_text_round_trip(r: Role)
    ensures
        role_of_text(role_text(r)) == Some(r),
{
    reveal_strlit("system");
    reveal_strlit("user");
    reveal_strlit("assistant");
    reveal_strlit("tool");
    assert("user"@[0] != "system"@[0]);
    assert("tool"@[0] != "user"@[0]);
    assert("tool"@[0] != "system"@[0]);
}

impl Role {
    /// The wire name of this role.
    pub fn name(&self) -> (r: &'static str)
        ensures
            r@ == role_text(*self),
    {
        match self {
            Role::System => "system",
            Role::User => "user",
            Role::Assistant => "assistant",
            Role::Tool => "tool",
        }
    }

    /// Parses a wire name; names outside the four roles give `None`.
    pub fn from_name(t: &str) -> (r: Option<Role>)
        ensures
            r == role_of_text(t@),
    {
        if str_equal(t, "system") {
            Some(Role::System)
        } else if str_equal(t, "user") {
            Some(Role::User)
        } else if str_equal(t, "assistant") {
            Some(Role::Assistant)
        } else if str_equal(t, "tool") {
            Some(Role::Tool)
        } else {
            None
        }
    }
}

/// Character-wise equality of two strings.
pub fn str_equal(a: &str, b: &str) -> (r: bool)
    ensures
        r == (a@ == b@),
{
    let n = a.unicode_len();
    if n != b.unicode_len() {
        return false;
    }
    let mut i: usize = 0;
    while i < n
        invariant
            n == a@.len(),
            n == b@.len(),
            i <= n,
            forall|j: int| 0 <= j < i ==> a@[j] == b@[j],
        decreases n - i,
    {
        if a.get_char(i) != b.get_char(i) {
            return false;
        }
        i = i + 1;
    }
    assert(a@ =~= b@);
    true
}

/// One message of a conversation.
pub struct Message {
    pub role: Role,
    pub content: String,
}

/// What a message holds, as plain values.
pub type MessageView = (Role, Seq<char>);

impl View for Message {
    type V = MessageView;

    open spec fn view(&self) -> MessageView {
        (self.role, self.content@)
    }
}

/// The views of a sequence of messages.
pub open spec fn message_views(s: Seq<Message>) -> Seq<MessageView> {
    s.map_values(|m: Message| m@)
}

impl Message {
    pub fn new(role: Role, content: String) -> (r: Message)
        ensures
            r.role == role,
            r.content == content,
    {
        Message { role, content }
    }

    /// A copy of this message.
    pub fn duplicate(&self) -> (r: Message)
        ensures
            r == *self,
    {
        Message { role: self.role, content: self.content.clone() }
    }
}

/// `i` is the position of the last user message of `s`.
pub open spec fn is_last_user(s: Seq<Message>, i: int) -> bool {
    &&& 0 <= i < s.len()
    &&& s[i].role == Role::User
    &&& forall|j: int| i < j < s.len() ==> s[j].role != Role::User
}

/// `s` holds no user message.
pub open spec fn has_no_user(s: Seq<Message>) -> bool {
    forall|j: int| 0 <= j < s.len() ==> s[j].role != Role::User
}

/// The position of the last message with the user role, if there is one.
pub fn last_user_index(msgs: &Vec<Message>) -> (r: Option<usize>)
    ensures
        match r {
            Some(i) => is_last_user(msgs@, i as int),
            None => has_no_user(msgs@),
        },
{
    let mut i: usize = msgs.len();
    while i > 0
        invariant
            i <= msgs@.len(),
            forall|j: int| i <= j < msgs@.len() ==> msgs@[j].role != Role::User,
        decreases i,
    {
        if msgs[i - 1].role == Role::User {
            return Some(i - 1);
        }
        i = i - 1;
    }
    None
}

} // verus!
