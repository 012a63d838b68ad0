//! The online-connection registry: the single source of truth for which
//! users currently hold a live gateway connection.
//!
//! At most one authenticated connection per user identity is permitted,
//! so the registry maps each online user id to exactly one stored
//! profile. The profile is stored complete at registration time, never as
//! a placeholder, so a snapshot can never observe a half-registered
//! entry.

use vstd::prelude::*;

verus! {

use crate::models::user::User;

broadcast use vstd::seq_lib::group_filter_ensures;

/// The failure a registration can end in.
#[derive(PartialEq, Eq, Structural, Copy, Clone, Debug)]
pub enum RegistryError {
    /// An entry for the user id already exists.
    AlreadyOnline,
}

/// Whether a user list holds an entry with the given id.
pub open spec fn spec_contains_id(users: Seq<User>, id: i64) -> bool {
    exists|i: int| 0 <= i < users.len() && users[i].id.0 == id
}

/// Whether no user id occurs twice in a list.
pub open spec fn spec_distinct_ids(users: Seq<User>) -> bool {
    forall|i: int, j: int|
        0 <= i < j < users.len() ==> #[trigger] users[i].id.0 != #[trigger] users[j].id.0
}

/// What a registration does to the online set: refused when the id is
/// already present, appended otherwise. The second component tells
/// whether it was accepted.
pub open spec fn spec_register(users: Seq<User>, user: User) -> (Seq<User>, bool) {
    if spec_contains_id(users, user.id.0) {
        (users, false)
    } else {
        (users.push(user), true)
    }
}

/// What an unregistration does to the online set: every entry with the
/// id is removed; nothing else changes.
pub open spec fn spec_unregister(users: Seq<User>, id: i64) -> Seq<User> {
    users.filter(|u: User| u.id.0 != id)
}

/// No entry with the removed id survives an unregistration.
pub proof fn lemma_unregister_removes_id(users: Seq<User>, id: i64)
    ensures
        !spec_contains_id(spec_unregister(users, id), id),
{
    let kept = spec_unregister(users, id);
    assert forall|i: int| 0 <= i < kept.len() implies kept[i].id.0 != id by {
        users.lemma_filter_pred(|u: User| u.id.0 != id, i);
    }
}

/// The registry of currently online users.
pub struct ConnectionRegistry {
    entries: Vec<User>,
}

impl ConnectionRegistry {
    /// The online users, in registration order.
    pub closed spec fn view(&self) -> Seq<User> {
        self.entries@
    }

    /// No user id occurs twice.
    pub open spec fn wf(&self) -> bool {
        spec_distinct_ids(self@)
    }

    /// Whether the user with this id is online.
    pub open spec fn spec_is_online(&self, id: i64) -> bool {
        spec_contains_id(self@, id)
    }

    /// An empty registry.
    pub fn new() -> (r: ConnectionRegistry)
        ensures
            r.wf(),
            r@ =~= Seq::<User>::empty(),
    {
        ConnectionRegistry { entries: Vec::new() }
    }

    /// How many users are online.
    pub fn len(&self) -> (n: usize)
        ensures
            n == self@.len(),
    {
        self.entries.len()
    }

    /// Whether the user with this id is online.
    pub fn is_online(&self, id: i64) -> (r: bool)
        ensures
            r == self.spec_is_online(id),
    {
        let n = self.entries.len();
        let mut i: usize = 0;
        while i < n
            invariant
                i <= n,
                n == self@.len(),
                forall|j: int| 0 <= j < i ==> self@[j].id.0 != id,
            decreases n - i,
        {
            if self.entries[i].id.0 == id {
                return true;
            }
            i = i + 1;
        }
        false
    }

    /// Register a user as online; refused with
    /// [`RegistryError::AlreadyOnline`] when an entry for the id already
    /// exists, so a second live session for the same user is impossible.
    pub fn register(&mut self, user: User) -> (r: Result<(), RegistryError>)
        requires
            old(self).wf(),
        ensures
            final(self).wf(),
            (final(self)@, r is Ok) == spec_register(old(self)@, user),
            r is Err ==> r == Err::<(), RegistryError>(RegistryError::AlreadyOnline),
    {
        if self.is_online(user.id.0) {
            Err(RegistryError::AlreadyOnline)
        } else {
            let ghost pre = self@;
            self.entries.push(user);
            proof {
                assert forall|i: int, j: int|
                    0 <= i < j < self@.len() implies #[trigger] self@[i].id.0
                    != #[trigger] self@[j].id.0 by {
                    if j == self@.len() - 1 {
                        assert(!spec_contains_id(pre, user.id.0));
                        assert(self@[i] == pre[i]);
                    }
                }
            }
            Ok(())
        }
    }

    /// Remove the user with this id; a no-op when the id is absent.
    pub fn unregister(&mut self, id: i64)
        requires
            old(self).wf(),
        ensures
            final(self).wf(),
            final(self)@ == spec_unregister(old(self)@, id),
            !final(self).spec_is_online(id),
    {
        let n = self.entries.len();
        let mut kept: Vec<User> = Vec::new();
        let mut i: usize = 0;
        while i < n
            invariant
                i <= n,
                n == self@.len(),
                old(self)@ == self@,
                self.wf(),
                kept@ =~= self@.take(i as int).filter(|u: User| u.id.0 != id),
                spec_distinct_ids(kept@),
                forall|a: int|
                    0 <= a < kept@.len() ==> exists|j: int|
                        0 <= j < i && self@[j] == #[trigger] kept@[a],
            decreases n - i,
        {
            proof {
                reveal_with_fuel(Seq::filter, 2);
                assert(self@.take(i + 1).drop_last() =~= self@.take(i as int));
                assert(self@.take(i + 1).last() == self@[i as int]);
            }
            let ghost kept_pre = kept@;
            let entry = self.entries[i].clone();
            if entry.id.0 != id {
                kept.push(entry);
                proof {
                    assert forall|a: int, b: int|
                        0 <= a < b < kept@.len() implies #[trigger] kept@[a].id.0
                        != #[trigger] kept@[b].id.0 by {
                        if b == kept@.len() - 1 {
                            let j = choose|j: int| 0 <= j < i && self@[j] == kept_pre[a];
                            assert(self@[j].id.0 != self@[i as int].id.0);
                        }
                    }
                    assert forall|a: int| 0 <= a < kept@.len() implies exists|j: int|
                        0 <= j < i + 1 && self@[j] == #[trigger] kept@[a] by {
                        if a < kept@.len() - 1 {
                            let j = choose|j: int| 0 <= j < i && self@[j] == kept_pre[a];
                            assert(self@[j] == kept@[a]);
                        } else {
                            assert(self@[i as int] == kept@[a]);
                        }
                    }
                }
            }
            i = i + 1;
        }
        proof {
            assert(self@.take(n as int) =~= self@);
        }
        self.entries = kept;
        proof {
            lemma_unregister_removes_id(old(self)@, id);
        }
    }

    /// The complete set of online users, excluding the one with the
    /// given id: the snapshot delivered on successful identification.
    pub fn snapshot_excluding(&self, id: i64) -> (r: Vec<User>)
        ensures
            r@ == spec_unregister(self@, id),
    {
        let n = self.entries.len();
        let mut out: Vec<User> = Vec::new();
        let mut i: usize = 0;
        while i < n
            invariant
                i <= n,
                n == self@.len(),
                out@ =~= self@.take(i as int).filter(|u: User| u.id.0 != id),
            decreases n - i,
        {
            proof {
                reveal_with_fuel(Seq::filter, 2);
                assert(self@.take(i + 1).drop_last() =~= self@.take(i as int));
                assert(self@.take(i + 1).last() == self@[i as int]);
            }
            let entry = self.entries[i].clone();
            if entry.id.0 != id {
                out.push(entry);
            }
            i = i + 1;
        }
        proof {
            assert(self@.take(n as int) =~= self@);
        }
        out
    }

    /// The complete set of online users: a consistent point-in-time
    /// snapshot.
    pub fn snapshot(&self) -> (r: Vec<User>)
        ensures
            r@ == self@,
    {
        let n = self.entries.len();
        let mut out: Vec<User> = Vec::new();
        let mut i: usize = 0;
        while i < n
            invariant
                i <= n,
                n == self@.len(),
                out@ =~= self@.take(i as int),
            decreases n - i,
        {
            out.push(self.entries[i].clone());
            proof {
                assert(self@.take(i + 1) =~= self@.take(i as int).push(self@[i as int]));
            }
            i = i + 1;
        }
        proof {
            assert(self@.take(n as int) =~= self@);
        }
        out
    }
}

/// Registering twice for one id without an intervening unregistration
/// always fails, and after an unregistration a registration for that id
/// always succeeds: the single-session rule, stated over the registry
/// model.
pub proof fn lemma_single_session(users: Seq<User>, u: User, v: User)
    requires
        v.id.0 == u.id.0,
    ensures
        spec_register(users, u).1 ==> !spec_register(spec_register(users, u).0, v).1,
        spec_register(spec_unregister(spec_register(users, u).0, u.id.0), v).1,
{
    let after = spec_register(users, u).0;
    if spec_register(users, u).1 {
        assert(after[after.len() - 1] == u);
        assert(spec_contains_id(after, v.id.0));
    }
    lemma_unregister_removes_id(after, u.id.0);
}

} // verus!
