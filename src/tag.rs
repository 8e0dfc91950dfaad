//! Roles and tags: the metadata attached to each message of a prompt.

use crate::pattern::Pattern;
use vstd::prelude::*;

verus! {

/// A role classifies who speaks a message, as chat models expect.
#[derive(Debug, Clone, Copy, PartialEq, Eq, Structural)]
pub enum Role {
    System,
    User,
    Assistant,
}

/// A piece of metadata attached to one message.
#[derive(Debug)]
pub enum Tag {
    Pattern(Pattern),
    Role(Role),
}

/// The tags of one message.
pub type Tags = Vec<Tag>;

/// The lowercase name under which a role is written out.
pub open spec fn role_name(role: Role) -> Seq<char> {
    match role {
        Role::System => "system"@,
        Role::User => "user"@,
        Role::Assistant => "assistant"@,
    }
}

impl Role {
    /// The lowercase name under which this role is written out.
    pub fn name(&self) -> (r: &'static str)
        ensures
            r@ == role_name(*self),
    {
        match self {
            Role::System => "system",
            Role::User => "user",
            Role::Assistant => "assistant",
        }
    }
}

impl Clone for Tag {
    fn clone(&self) -> (r: Self)
        ensures
            r == *self,
    {
        match self {
            Tag::Pattern(p) => Tag::Pattern(p.clone()),
            Tag::Role(role) => Tag::Role(*role),
        }
    }
}

/// The first role among `tags`; `User` where none is given.
pub open spec fn first_role(tags: Seq<Tag>) -> Role
    decreases tags.len(),
{
    if tags.len() == 0 {
        Role::User
    } else {
        match tags[0] {
            Tag::Role(role) => role,
            Tag::Pattern(_) => first_role(tags.drop_first()),
        }
    }
}

/// The role that a message with `tags` speaks in: the first role tag, or
/// `User` where there is none.
pub fn role_of(tags: &Vec<Tag>) -> (r: Role)
    ensures
        r == first_role(tags@),
{
    let n = tags.len();
    let mut i: usize = 0;
    proof {
        assert(tags@.skip(0) =~= tags@);
    }
    while i < n
        invariant
            i <= n,
            n == tags@.len(),
            first_role(tags@.skip(i as int)) == first_role(tags@),
        decreases n - i,
    {
        proof {
            assert(tags@.skip(i as int).drop_first() =~= tags@.skip(i + 1));
            assert(tags@.skip(i as int)[0] == tags@[i as int]);
        }
        match &tags[i] {
            Tag::Role(role) => {
                return *role;
            },
            Tag::Pattern(_) => {},
        }
        i = i + 1;
    }
    Role::User
}

/// A copy of `tags`.
pub fn copy_tags(tags: &Vec<Tag>) -> (r: Vec<Tag>)
    ensures
        r@ == tags@,
{
    let mut out: Vec<Tag> = Vec::new();
    let n = tags.len();
    let mut i: usize = 0;
    while i < n
        invariant
            i <= n,
            n == tags@.len(),
            out@ == tags@.take(i as int),
        decreases n - i,
    {
        out.push(tags[i].clone());
        proof {
            assert(tags@.take(i + 1) =~= tags@.take(i as int).push(tags@[i as int]));
        }
        i = i + 1;
    }
    proof {
        assert(tags@.take(n as int) =~= tags@);
    }
    out
}

} // verus!
