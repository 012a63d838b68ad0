//! Thread records and their flag bits.

use vstd::prelude::*;

verus! {

use crate::models::message::Message;
use crate::models::user::User;
use crate::utils::snowflake::Snowflake;

/// The thread is pinned at the top of its category.
pub const THREAD_FLAG_PINNED: i32 = 1;

/// The thread is not open for further messages.
pub const THREAD_FLAG_LOCKED: i32 = 1 << 1;

/// The thread contains NSFW content.
pub const THREAD_FLAG_NSFW: i32 = 1 << 2;

/// A set of thread flag bits.
#[derive(PartialEq, Eq, Structural, Copy, Clone, Debug)]
pub struct ThreadFlags {
    pub bits: i32,
}

impl ThreadFlags {
    /// Whether every bit of `other` is set in `self`.
    pub open spec fn spec_contains(&self, other: ThreadFlags) -> bool {
        self.bits & other.bits == other.bits
    }

    /// The empty flag set.
    pub fn empty() -> (r: ThreadFlags)
        ensures
            r.bits == 0,
    {
        ThreadFlags { bits: 0 }
    }

    /// Whether every bit of `other` is set in `self`.
    pub fn contains(&self, other: ThreadFlags) -> (r: bool)
        ensures
            r == self.spec_contains(other),
    {
        self.bits & other.bits == other.bits
    }
}

/// A thread in a category, carrying its original message.
pub struct Thread {
    /// The ID of the thread.
    pub id: Snowflake,
    /// The ID of the category the thread was created in.
    pub category_id: Snowflake,
    /// The author of the thread.
    pub author: User,
    /// The title of the thread.
    pub title: String,
    /// The thread's flags.
    pub flags: ThreadFlags,
    /// The message the thread was opened with.
    pub original_message: Message,
}

impl Thread {
    /// Create a new [`Thread`] record; the author is the author of the
    /// original message.
    pub fn new(
        id: Snowflake,
        category_id: Snowflake,
        message: Message,
        title: &str,
        flags: Option<ThreadFlags>,
    ) -> (t: Thread)
        ensures
            t.id == id,
            t.category_id == category_id,
            t.title@ == title@,
            t.author == message.author,
            t.original_message == message,
            t.flags == match flags {
                Some(f) => f,
                None => ThreadFlags { bits: 0 },
            },
    {
        let author = message.author.clone();
        Thread {
            id,
            category_id,
            title: title.to_owned(),
            author,
            original_message: message,
            flags: match flags {
                Some(f) => f,
                None => ThreadFlags::empty(),
            },
        }
    }

    /// Whether the thread has all the given flags.
    pub fn is(&self, flag: ThreadFlags) -> (r: bool)
        ensures
            r == self.flags.spec_contains(flag),
    {
        self.flags.contains(flag)
    }
}

impl Clone for Thread {
    fn clone(&self) -> (res: Self)
        ensures
            res == *self,
    {
        Thread {
            id: self.id,
            category_id: self.category_id,
            author: self.author.clone(),
            title: self.title.clone(),
            flags: self.flags,
            original_message: self.original_message.clone(),
        }
    }
}

} // verus!
