//! Message records and their flag bits.

use vstd::prelude::*;

verus! {

use crate::models::user::User;
use crate::utils::snowflake::Snowflake;

/// This message cannot be deleted (the original thread message).
pub const MESSAGE_FLAG_UNDELETEABLE: i32 = 1;

/// The message was created by a system user.
pub const MESSAGE_FLAG_SYSTEM: i32 = 1 << 1;

/// A set of message flag bits.
#[derive(PartialEq, Eq, Structural, Copy, Clone, Debug)]
pub struct MessageFlags {
    pub bits: i32,
}

impl MessageFlags {
    /// Whether every bit of `other` is set in `self`.
    pub open spec fn spec_contains(&self, other: MessageFlags) -> bool {
        self.bits & other.bits == other.bits
    }

    /// The empty flag set.
    pub fn empty() -> (r: MessageFlags)
        ensures
            r.bits == 0,
    {
        MessageFlags { bits: 0 }
    }

    /// Whether every bit of `other` is set in `self`.
    pub fn contains(&self, other: MessageFlags) -> (r: bool)
        ensures
            r == self.spec_contains(other),
    {
        self.bits & other.bits == other.bits
    }
}

/// A message in a thread. The last-edit time is kept as milliseconds
/// since the UNIX epoch.
pub struct Message {
    /// The ID of the message.
    pub id: Snowflake,
    /// The ID of the thread the message was sent in.
    pub thread_id: Snowflake,
    /// The author of the message.
    pub author: User,
    /// Contents of the message.
    pub content: String,
    /// The message's flags.
    pub flags: MessageFlags,
    /// The source of a reply message.
    pub referenced_message_id: Option<i64>,
    /// When this message was last edited, in UNIX milliseconds.
    pub updated_at: Option<i64>,
}

impl Message {
    /// Create a new [`Message`] record.
    pub fn new(id: Snowflake, author: User, thread_id: Snowflake, content: &str, flags: Option<
        MessageFlags,
    >) -> (m: Message)
        ensures
            m.id == id,
            m.author == author,
            m.thread_id == thread_id,
            m.content@ == content@,
            m.flags == match flags {
                Some(f) => f,
                None => MessageFlags { bits: 0 },
            },
            m.referenced_message_id is None,
            m.updated_at is None,
    {
        let flag_bits = match flags {
            Some(f) => f,
            None => MessageFlags::empty(),
        };
        Message {
            id,
            author,
            thread_id,
            flags: flag_bits,
            content: content.to_owned(),
            referenced_message_id: None,
            updated_at: None,
        }
    }

    /// Whether the message has all the given flags.
    pub fn is(&self, flag: MessageFlags) -> (r: bool)
        ensures
            r == self.flags.spec_contains(flag),
    {
        self.flags.contains(flag)
    }
}

impl Clone for Message {
    fn clone(&self) -> (res: Self)
        ensures
            res == *self,
    {
        Message {
            id: self.id,
            thread_id: self.thread_id,
            author: self.author.clone(),
            content: self.content.clone(),
            flags: self.flags,
            referenced_message_id: self.referenced_message_id,
            updated_at: self.updated_at,
        }
    }
}

} // verus!
