//! The user database that administrators edit at run time. Storing it as a
//! file happens outside.
use vstd::prelude::*;

use crate::config::{same_text, UserConfig};
use crate::text::chars_of;

verus! {

/// A character allowed in a user id: an ASCII letter or digit, `_` or `-`.
pub open spec fn id_char(c: char) -> bool {
    ('a' <= c && c <= 'z') || ('A' <= c && c <= 'Z') || ('0' <= c && c <= '9') || c == '_' || c
        == '-'
}

/// A user id: not empty, made of ASCII letters, digits, `_` and `-`.
pub open spec fn valid_user_id(id: Seq<char>) -> bool {
    id.len() > 0 && forall|i: int| 0 <= i < id.len() ==> id_char(#[trigger] id[i])
}

pub fn is_valid_user_id(id: &str) -> (r: bool)
    ensures
        r == valid_user_id(id@),
{
    let chars = chars_of(id);
    if chars.len() == 0 {
        return false;
    }
    let mut i: usize = 0;
    while i < chars.len()
        invariant
            chars@ == id@,
            i <= chars@.len(),
            forall|j: int| 0 <= j < i ==> id_char(#[trigger] chars@[j]),
        decreases chars@.len() - i,
    {
        let c = chars[i];
        if !(('a' <= c && c <= 'z') || ('A' <= c && c <= 'Z') || ('0' <= c && c <= '9') || c == '_'
            || c == '-') {
            return false;
        }
        i = i + 1;
    }
    true
}

/// Why a user could not be stored.
#[derive(Clone, Copy, Debug, PartialEq, Eq, Structural)]
pub enum UserError {
    InvalidUserId,
}

/// Index of the user with the id.
pub open spec fn user_index(users: Seq<UserConfig>, id: Seq<char>) -> Option<int> {
    if exists|i: int| 0 <= i < users.len() && users[i].user_id@ == id {
        Some(choose|i: int| 0 <= i < users.len() && users[i].user_id@ == id)
    } else {
        None
    }
}

/// Ids are unique.
pub open spec fn distinct_users(users: Seq<UserConfig>) -> bool {
    forall|i: int, j: int|
        0 <= i < j < users.len() ==> (#[trigger] users[i]).user_id@ != (#[trigger] users[j]).user_id@
}

/// The users, one entry per id.
pub struct UserManager {
    users: Vec<UserConfig>,
}

impl UserManager {
    pub closed spec fn spec_users(&self) -> Seq<UserConfig> {
        self.users@
    }

    pub open spec fn wf(&self) -> bool {
        distinct_users(self.spec_users())
    }

    pub fn new() -> (r: UserManager)
        ensures
            r.wf(),
            r.spec_users().len() == 0,
    {
        UserManager { users: Vec::new() }
    }

    fn position(&self, id: &str) -> (r: Option<usize>)
        requires
            self.wf(),
        ensures
            match user_index(self.spec_users(), id@) {
                Some(i) => r is Some && r.unwrap() as int == i,
                None => r is None,
            },
            r is Some ==> r.unwrap() < self.spec_users().len(),
    {
        let mut i: usize = 0;
        while i < self.users.len()
            invariant
                self.wf(),
                i <= self.users@.len(),
                forall|j: int| 0 <= j < i ==> self.users@[j].user_id@ != id@,
            decreases self.users@.len() - i,
        {
            if same_text(self.users[i].user_id.as_str(), id) {
                proof {
                    let k = choose|k: int| 0 <= k < self.users@.len() && self.users@[k].user_id@ == id@;
                    if k > i {
                        assert(self.spec_users()[i as int].user_id@ != self.spec_users()[k].user_id@);
                    }
                }
                return Some(i);
            }
            i = i + 1;
        }
        None
    }

    /// All users.
    pub fn list_users(&self) -> (r: &Vec<UserConfig>)
        ensures
            r@ == self.spec_users(),
    {
        &self.users
    }

    /// The user with the id.
    pub fn get_user(&self, user_id: &str) -> (r: Option<&UserConfig>)
        requires
            self.wf(),
        ensures
            match user_index(self.spec_users(), user_id@) {
                Some(i) => r is Some && *r.unwrap() == self.spec_users()[i],
                None => r is None,
            },
    {
        match self.position(user_id) {
            Some(i) => Some(&self.users[i]),
            None => None,
        }
    }

    pub fn user_exists(&self, user_id: &str) -> (r: bool)
        requires
            self.wf(),
        ensures
            r == (user_index(self.spec_users(), user_id@) is Some),
    {
        self.position(user_id).is_some()
    }

    /// Creates or replaces a user and reports whether it is new. An invalid
    /// id is refused and nothing changes.
    pub fn upsert_user(&mut self, user: UserConfig) -> (r: Result<bool, UserError>)
        requires
            old(self).wf(),
        ensures
            final(self).wf(),
            !valid_user_id(user.user_id@) ==> r == Err::<bool, UserError>(UserError::InvalidUserId)
                && final(self).spec_users() == old(self).spec_users(),
            valid_user_id(user.user_id@) ==> r == Ok::<bool, UserError>(
                user_index(old(self).spec_users(), user.user_id@) is None,
            ),
            valid_user_id(user.user_id@) ==> (user_index(final(self).spec_users(), user.user_id@) matches Some(i)
                && final(self).spec_users()[i] == user),
            forall|j: int|
                0 <= j < old(self).spec_users().len() && (#[trigger] old(self).spec_users()[j]).user_id@
                    != user.user_id@ ==> final(self).spec_users().contains(old(self).spec_users()[j]),
            forall|j: int|
                0 <= j < final(self).spec_users().len() ==> #[trigger] final(self).spec_users()[j] == user
                    || old(self).spec_users().contains(final(self).spec_users()[j]),
    {
        if !is_valid_user_id(user.user_id.as_str()) {
            return Err(UserError::InvalidUserId);
        }
        let ghost before = self.users@;
        let ghost id = user.user_id@;
        match self.position(user.user_id.as_str()) {
            Some(i) => {
                self.users.set(i, user);
                proof {
                    assert forall|a: int, b: int| 0 <= a < b < self.users@.len() implies (
                    #[trigger] self.users@[a]).user_id@ != (#[trigger] self.users@[b]).user_id@ by {
                        assert(before[a].user_id@ != before[b].user_id@);
                    }
                    lemma_user_found(self.users@, i as int);
                    assert forall|j: int|
                        0 <= j < before.len() && (#[trigger] before[j]).user_id@ != id implies self.users@.contains(before[j]) by {
                        assert(self.users@[j] == before[j]);
                    }
                    assert forall|j: int|
                        0 <= j < self.users@.len() implies #[trigger] self.users@[j] == user || before.contains(self.users@[j]) by {
                        if j != i {
                            assert(self.users@[j] == before[j]);
                        }
                    }
                }
                Ok(false)
            },
            None => {
                let n = self.users.len();
                self.users.push(user);
                proof {
                    assert forall|a: int, b: int| 0 <= a < b < self.users@.len() implies (
                    #[trigger] self.users@[a]).user_id@ != (#[trigger] self.users@[b]).user_id@ by {
                        assert(self.users@[a] == before[a]);
                        if b < n {
                            assert(self.users@[b] == before[b]);
                            assert(before[a].user_id@ != before[b].user_id@);
                        } else {
                            assert(before[a].user_id@ != id);
                        }
                    }
                    lemma_user_found(self.users@, n as int);
                    assert forall|j: int|
                        0 <= j < before.len() && (#[trigger] before[j]).user_id@ != id implies self.users@.contains(before[j]) by {
                        assert(self.users@[j] == before[j]);
                    }
                    assert forall|j: int|
                        0 <= j < self.users@.len() implies #[trigger] self.users@[j] == user || before.contains(self.users@[j]) by {
                        if j < n {
                            assert(self.users@[j] == before[j]);
                        }
                    }
                }
                Ok(true)
            },
        }
    }

    /// Removes a user; reports whether there was one.
    pub fn delete_user(&mut self, user_id: &str) -> (r: bool)
        requires
            old(self).wf(),
        ensures
            final(self).wf(),
            r == (user_index(old(self).spec_users(), user_id@) is Some),
            user_index(final(self).spec_users(), user_id@) is None,
            forall|j: int|
                0 <= j < old(self).spec_users().len() && (#[trigger] old(self).spec_users()[j]).user_id@
                    != user_id@ ==> final(self).spec_users().contains(old(self).spec_users()[j]),
            forall|j: int|
                0 <= j < final(self).spec_users().len() ==> old(self).spec_users().contains(
                    #[trigger] final(self).spec_users()[j],
                ),
    {
        match self.position(user_id) {
            Some(i) => {
                let ghost before = self.users@;
                self.users.remove(i);
                proof {
                    assert forall|a: int, b: int| 0 <= a < b < self.users@.len() implies (
                    #[trigger] self.users@[a]).user_id@ != (#[trigger] self.users@[b]).user_id@ by {
                        let a0 = if a < i { a } else { a + 1 };
                        let b0 = if b < i { b } else { b + 1 };
                        assert(self.users@[a] == before[a0]);
                        assert(self.users@[b] == before[b0]);
                        assert(before[a0].user_id@ != before[b0].user_id@);
                    }
                    assert forall|j: int|
                        0 <= j < before.len() && (#[trigger] before[j]).user_id@ != user_id@ implies self.users@.contains(before[j]) by {
                        if j < i {
                            assert(self.users@[j] == before[j]);
                        } else {
                            assert(j != i);
                            assert(self.users@[j - 1] == before[j]);
                        }
                    }
                    assert forall|j: int| 0 <= j < self.users@.len() implies before.contains(#[trigger] self.users@[j]) by {
                        if j < i {
                            assert(self.users@[j] == before[j]);
                        } else {
                            assert(self.users@[j] == before[j + 1]);
                        }
                    }
                    assert forall|k: int| 0 <= k < self.users@.len() implies self.users@[k].user_id@ != user_id@ by {
                        let k0 = if k < i { k } else { k + 1 };
                        assert(self.users@[k] == before[k0]);
                        if k0 < i {
                            assert(before[k0].user_id@ != before[i as int].user_id@);
                        } else {
                            assert(before[i as int].user_id@ != before[k0].user_id@);
                        }
                    }
                }
                true
            },
            None => false,
        }
    }

    /// Merges users from the configuration; on the same id they win. Entries
    /// with an invalid id are skipped.
    pub fn reload_from_config(&mut self, config_users: Vec<UserConfig>)
        requires
            old(self).wf(),
        ensures
            final(self).wf(),
            forall|j: int|
                0 <= j < config_users@.len() && valid_user_id((#[trigger] config_users@[j]).user_id@)
                    ==> has_user(final(self).spec_users(), config_users@[j].user_id@),
            forall|j: int|
                0 <= j < old(self).spec_users().len() ==> has_user(
                    final(self).spec_users(),
                    (#[trigger] old(self).spec_users()[j]).user_id@,
                ),
    {
        let ghost all = config_users@;
        let mut rest = config_users;
        while rest.len() > 0
            invariant
                self.wf(),
                rest@ == all.take(rest@.len() as int),
                rest@.len() <= all.len(),
                forall|j: int|
                    rest@.len() <= j < all.len() && valid_user_id((#[trigger] all[j]).user_id@)
                        ==> has_user(self.spec_users(), all[j].user_id@),
                forall|j: int|
                    0 <= j < old(self).spec_users().len() ==> has_user(
                        self.spec_users(),
                        (#[trigger] old(self).spec_users()[j]).user_id@,
                    ),
            decreases rest@.len(),
        {
            let ghost before = self.spec_users();
            let ghost n = rest@.len();
            let user = rest.pop().unwrap();
            assert(rest@ =~= all.take(n - 1));
            assert(user == all[n - 1]);
            let _ = self.upsert_user(user);
            proof {
                assert forall|id: Seq<char>| has_user(before, id) implies has_user(self.spec_users(), id) by {
                    let k = choose|k: int| 0 <= k < before.len() && before[k].user_id@ == id;
                    if id != user.user_id@ {
                        assert(self.spec_users().contains(before[k]));
                        let m = choose|m: int| 0 <= m < self.spec_users().len() && self.spec_users()[m] == before[k];
                    } else {
                        assert(valid_user_id(user.user_id@) || self.spec_users() == before);
                    }
                }
                if valid_user_id(user.user_id@) {
                    let i = user_index(self.spec_users(), user.user_id@).unwrap();
                    assert(self.spec_users()[i].user_id@ == user.user_id@);
                }
            }
        }
    }
}

/// Some user has the id.
pub open spec fn has_user(users: Seq<UserConfig>, id: Seq<char>) -> bool {
    exists|i: int| 0 <= i < users.len() && users[i].user_id@ == id
}

proof fn lemma_user_found(users: Seq<UserConfig>, i: int)
    requires
        distinct_users(users),
        0 <= i < users.len(),
    ensures
        user_index(users, users[i].user_id@) == Some(i),
{
    let id = users[i].user_id@;
    assert(exists|k: int| 0 <= k < users.len() && users[k].user_id@ == id);
    let k = choose|k: int| 0 <= k < users.len() && users[k].user_id@ == id;
    if k != i {
        if k < i {
            assert(users[k].user_id@ != users[i].user_id@);
        } else {
            assert(users[i].user_id@ != users[k].user_id@);
        }
    }
}

} // verus!
