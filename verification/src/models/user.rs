//! User records, their permission bits and their flag bits.

use vstd::prelude::*;

verus! {

use crate::utils::snowflake::Snowflake;

/// User is a system account.
pub const USER_FLAG_SYSTEM: i32 = 1;

/// Forum staff or trusted user.
pub const USER_FLAG_STAFF: i32 = 1 << 1;

/// User is temporarily restricted from creating and editing messages and
/// threads.
pub const USER_FLAG_QUARANTINED: i32 = 1 << 3;

/// User is temporarily or permanently banned.
pub const USER_FLAG_BANNED: i32 = 1 << 4;

/// User is marked as a spammer.
pub const USER_FLAG_SPAMMER: i32 = 1 << 5;

/// The account is deleted.
pub const USER_FLAG_DELETED: i32 = 1 << 6;

/// Allows reading non-locked threads.
pub const PERMISSION_READ_PUBLIC_THREADS: i64 = 1;

/// Allows creation of threads.
pub const PERMISSION_CREATE_THREADS: i64 = 1 << 1;

/// Allows management and editing of threads.
pub const PERMISSION_MANAGE_THREADS: i64 = 1 << 2;

/// Allows sending messages in threads.
pub const PERMISSION_SEND_MESSAGES: i64 = 1 << 3;

/// Allows deletion of other users' messages.
pub const PERMISSION_MANAGE_MESSAGES: i64 = 1 << 4;

/// Allows adding reactions to messages.
pub const PERMISSION_ADD_REACTIONS: i64 = 1 << 5;

/// Allows management, creation and editing of categories.
pub const PERMISSION_MANAGE_CATEGORIES: i64 = 1 << 6;

/// Allows editing other users' usernames and display names.
pub const PERMISSION_MANAGE_USERS: i64 = 1 << 7;

/// Allows timing out and banning users.
pub const PERMISSION_MODERATE_USERS: i64 = 1 << 8;

/// Grants every permission.
pub const PERMISSION_ADMINISTRATOR: i64 = 0x7FFF_FFFF_FFFF_FFFF;

/// A set of user flag bits.
#[derive(PartialEq, Eq, Structural, Copy, Clone, Debug)]
pub struct UserFlags {
    pub bits: i32,
}

impl UserFlags {
    /// Whether every bit of `other` is set in `self`.
    pub open spec fn spec_contains(&self, other: UserFlags) -> bool {
        self.bits & other.bits == other.bits
    }

    /// The empty flag set.
    pub fn empty() -> (r: UserFlags)
        ensures
            r.bits == 0,
    {
        UserFlags { bits: 0 }
    }

    /// Whether every bit of `other` is set in `self`.
    pub fn contains(&self, other: UserFlags) -> (r: bool)
        ensures
            r == self.spec_contains(other),
    {
        self.bits & other.bits == other.bits
    }
}

/// A set of permission bits.
#[derive(PartialEq, Eq, Structural, Copy, Clone, Debug)]
pub struct Permissions {
    pub bits: i64,
}

impl Permissions {
    /// Whether every bit of `other` is set in `self`.
    pub open spec fn spec_contains(&self, other: Permissions) -> bool {
        self.bits & other.bits == other.bits
    }

    /// The empty permission set.
    pub fn empty() -> (r: Permissions)
        ensures
            r.bits == 0,
    {
        Permissions { bits: 0 }
    }

    /// Whether every bit of `other` is set in `self`.
    pub fn contains(&self, other: Permissions) -> (r: bool)
        ensures
            r == self.spec_contains(other),
    {
        self.bits & other.bits == other.bits
    }
}

/// The permissions a freshly registered user receives.
pub const DEFAULT_PERMISSION_BITS: i64 = (1 << 5) | (1 << 3) | (1 << 1) | 1;

/// What `sha256::digest` returns for a string: the digest is a function
/// of the input characters alone.
pub uninterp spec fn sha256_hex_of(s: Seq<char>) -> Seq<char>;

/// Relies on `sha256::digest` for `&str`: the lowercase hex digest of the
/// input, 64 characters long, a function of the input alone.
#[verifier::external_body]
pub(crate) fn sha256_hex(input: &str) -> (r: String)
    ensures
        r@ == sha256_hex_of(input@),
        r@.len() == 64,
{
    sha256::digest(input)
}

/// A forum user.
pub struct User {
    /// The user ID.
    pub id: Snowflake,
    /// The username.
    pub username: String,
    /// The user's display name.
    pub display_name: Option<String>,
    /// The user's bio.
    pub bio: Option<String>,
    /// The user's password hash; never shown to clients.
    pub password_hash: String,
    /// The user's permissions.
    pub permissions: Permissions,
    /// The user's flags.
    pub flags: UserFlags,
}

impl User {
    /// Create a new [`User`] record: the password is stored only as its
    /// digest, and the default permissions are granted.
    pub fn new(id: Snowflake, username: &str, display_name: &str, password: &str) -> (u: User)
        ensures
            u.id == id,
            u.username@ == username@,
            u.display_name matches Some(d) && d@ == display_name@,
            u.bio is None,
            u.password_hash@ == sha256_hex_of(password@),
            u.permissions.bits == DEFAULT_PERMISSION_BITS,
            u.flags.bits == 0,
    {
        User {
            id,
            username: username.to_owned(),
            display_name: Some(display_name.to_owned()),
            bio: None,
            password_hash: sha256_hex(password),
            permissions: Permissions { bits: DEFAULT_PERMISSION_BITS },
            flags: UserFlags::empty(),
        }
    }

    /// Whether the user has all the given flags.
    pub fn has_flag(&self, flag: UserFlags) -> (r: bool)
        ensures
            r == self.flags.spec_contains(flag),
    {
        self.flags.contains(flag)
    }

    /// Whether the user has all the given permissions.
    pub fn has_permission(&self, permission: Permissions) -> (r: bool)
        ensures
            r == self.permissions.spec_contains(permission),
    {
        self.permissions.contains(permission)
    }

    /// Whether a presented password digests to the stored hash.
    pub fn verify_password(&self, password: &str) -> (r: bool)
        ensures
            r == (self.password_hash@ == sha256_hex_of(password@)),
    {
        let digest = sha256_hex(password);
        self.password_hash == digest
    }
}

impl Clone for User {
    fn clone(&self) -> (res: Self)
        ensures
            res == *self,
    {
        let res = User {
            id: self.id,
            username: self.username.clone(),
            display_name: self.display_name.clone(),
            bio: self.bio.clone(),
            password_hash: self.password_hash.clone(),
            permissions: self.permissions,
            flags: self.flags,
        };
        proof {
            assert(res.display_name == self.display_name);
            assert(res.bio == self.bio);
        }
        res
    }
}

} // verus!
