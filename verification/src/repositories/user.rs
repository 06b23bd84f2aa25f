use crate::repositories::storage::StorageError;
use vstd::prelude::*;

verus! {

/// A registered chat user.
#[derive(Debug, PartialEq, Eq)]
pub struct User {
    pub username: Option<String>,
    pub user_id: i64,
    pub telegram_id: i64,
}

/// Mathematical value of a user row.
pub struct UserView {
    pub username: Option<Seq<char>>,
    pub user_id: i64,
    pub telegram_id: i64,
}

impl View for User {
    type V = UserView;

    open spec fn view(&self) -> UserView {
        UserView {
            username: match self.username {
                Some(name) => Some(name@),
                None => None,
            },
            user_id: self.user_id,
            telegram_id: self.telegram_id,
        }
    }
}

impl Clone for User {
    fn clone(&self) -> (r: Self)
        ensures
            r == *self,
    {
        User {
            username: match &self.username {
                Some(name) => Some(name.clone()),
                None => None,
            },
            user_id: self.user_id,
            telegram_id: self.telegram_id,
        }
    }
}

/// The values of a list of user rows.
pub open spec fn user_views(rows: Seq<User>) -> Seq<UserView> {
    rows.map_values(|u: User| u@)
}

/// Mathematical value of the `user` table: its rows in insertion order and
/// the identifier that the next row will get.
pub struct UserTable {
    pub rows: Seq<UserView>,
    pub next_id: int,
}

impl UserTable {
    /// Identifiers are positive, grow with insertion and stay below the
    /// next one; no two rows share an external identifier.
    pub open spec fn wf(self) -> bool {
        &&& 1 <= self.next_id <= i64::MAX
        &&& forall|i: int|
            0 <= i < self.rows.len() ==> 1 <= (#[trigger] self.rows[i]).user_id < self.next_id
        &&& forall|i: int, j: int|
            0 <= i < j < self.rows.len() ==> (#[trigger] self.rows[i]).user_id < (
            #[trigger] self.rows[j]).user_id
        &&& forall|i: int, j: int|
            0 <= i < j < self.rows.len() ==> (#[trigger] self.rows[i]).telegram_id != (
            #[trigger] self.rows[j]).telegram_id
    }

    /// Whether a row has the external identifier `telegram_id`.
    pub open spec fn has_telegram_id(self, telegram_id: i64) -> bool {
        exists|i: int|
            0 <= i < self.rows.len() && (#[trigger] self.rows[i]).telegram_id == telegram_id
    }

    /// Where the row with the external identifier `telegram_id` stands.
    pub open spec fn index_of(self, telegram_id: i64) -> int {
        choose|i: int|
            0 <= i < self.rows.len() && (#[trigger] self.rows[i]).telegram_id == telegram_id
    }

    /// The row with the external identifier `telegram_id`.
    pub open spec fn by_telegram_id(self, telegram_id: i64) -> Option<UserView> {
        if self.has_telegram_id(telegram_id) {
            Some(self.rows[self.index_of(telegram_id)])
        } else {
            None
        }
    }

    /// How many rows have the external identifier `telegram_id`.
    pub open spec fn count(self, telegram_id: i64) -> nat {
        self.rows.filter(|u: UserView| u.telegram_id == telegram_id).len()
    }

    /// The table after one more row.
    pub open spec fn inserted(self, telegram_id: i64, username: Seq<char>) -> UserTable {
        UserTable {
            rows: self.rows.push(
                UserView { username: Some(username), user_id: self.next_id as i64, telegram_id },
            ),
            next_id: self.next_id + 1,
        }
    }

    /// In a well-formed table an external identifier names at most one row.
    pub proof fn lemma_index_of(self, telegram_id: i64, i: int)
        requires
            self.wf(),
            0 <= i < self.rows.len(),
            self.rows[i].telegram_id == telegram_id,
        ensures
            self.has_telegram_id(telegram_id),
            self.index_of(telegram_id) == i,
            self.by_telegram_id(telegram_id) == Some(self.rows[i]),
    {
        let j = self.index_of(telegram_id);
        if j < i {
            assert(self.rows[j].telegram_id != self.rows[i].telegram_id);
        } else if i < j {
            assert(self.rows[i].telegram_id != self.rows[j].telegram_id);
        }
    }

    /// In a well-formed table an external identifier has one row or none.
    pub proof fn lemma_count(self, telegram_id: i64)
        requires
            self.wf(),
        ensures
            self.count(telegram_id) == if self.has_telegram_id(telegram_id) {
                1nat
            } else {
                0nat
            },
        decreases self.rows.len(),
    {
        reveal(Seq::filter);
        let pred = |u: UserView| u.telegram_id == telegram_id;
        if self.rows.len() > 0 {
            let rest = UserTable { rows: self.rows.drop_last(), next_id: self.next_id };
            let last = self.rows.len() - 1;
            assert forall|i: int| 0 <= i < rest.rows.len() implies rest.rows[i]
                == self.rows[i] by {}
            assert(rest.wf()) by {
                assert forall|i: int, j: int| 0 <= i < j < rest.rows.len() implies (
                #[trigger] rest.rows[i]).user_id < (#[trigger] rest.rows[j]).user_id by {
                    assert(self.rows[i].user_id < self.rows[j].user_id);
                }
                assert forall|i: int, j: int| 0 <= i < j < rest.rows.len() implies (
                #[trigger] rest.rows[i]).telegram_id != (#[trigger] rest.rows[j]).telegram_id by {
                    assert(self.rows[i].telegram_id != self.rows[j].telegram_id);
                }
                assert forall|i: int| 0 <= i < rest.rows.len() implies 1 <= (
                #[trigger] rest.rows[i]).user_id < rest.next_id by {
                    assert(1 <= self.rows[i].user_id < self.next_id);
                }
            }
            rest.lemma_count(telegram_id);
            if self.rows[last].telegram_id == telegram_id {
                assert(self.has_telegram_id(telegram_id));
                if rest.has_telegram_id(telegram_id) {
                    let k = rest.index_of(telegram_id);
                    assert(self.rows[k].telegram_id != self.rows[last].telegram_id);
                }
            } else {
                if self.has_telegram_id(telegram_id) {
                    let k = self.index_of(telegram_id);
                    assert(rest.rows[k].telegram_id == telegram_id);
                }
                if rest.has_telegram_id(telegram_id) {
                    let k = rest.index_of(telegram_id);
                    assert(self.rows[k].telegram_id == telegram_id);
                }
            }
        }
    }

    /// Registering an unknown external identifier keeps the table well
    /// formed and makes the identifier known.
    pub proof fn lemma_inserted(self, telegram_id: i64, username: Seq<char>)
        requires
            self.wf(),
            !self.has_telegram_id(telegram_id),
            self.next_id < i64::MAX,
        ensures
            self.inserted(telegram_id, username).wf(),
            self.inserted(telegram_id, username).by_telegram_id(telegram_id) == Some(
                UserView { username: Some(username), user_id: self.next_id as i64, telegram_id },
            ),
    {
        let after = self.inserted(telegram_id, username);
        let last = self.rows.len() as int;
        assert forall|i: int, j: int| 0 <= i < j < after.rows.len() implies (
        #[trigger] after.rows[i]).telegram_id != (#[trigger] after.rows[j]).telegram_id by {
            if j == last {
                assert(self.rows[i].telegram_id != telegram_id);
            } else {
                assert(self.rows[i].telegram_id != self.rows[j].telegram_id);
            }
        }
        assert forall|i: int, j: int| 0 <= i < j < after.rows.len() implies (
        #[trigger] after.rows[i]).user_id < (#[trigger] after.rows[j]).user_id by {
            if j == last {
                assert(self.rows[i].user_id < self.next_id);
            } else {
                assert(self.rows[i].user_id < self.rows[j].user_id);
            }
        }
        assert forall|i: int| 0 <= i < after.rows.len() implies 1 <= (
        #[trigger] after.rows[i]).user_id < after.next_id by {
            if i < last {
                assert(1 <= self.rows[i].user_id < self.next_id);
            }
        }
        after.lemma_index_of(telegram_id, last);
    }
}

/// The table that holds `rows`, with the next identifier after the last.
pub open spec fn loaded_users(rows: Seq<UserView>) -> UserTable {
    UserTable {
        rows,
        next_id: if rows.len() == 0 {
            1
        } else {
            rows.last().user_id + 1
        },
    }
}

/// The `user` table.
pub struct UserRepository {
    rows: Vec<User>,
    next_id: i64,
}

impl View for UserRepository {
    type V = UserTable;

    closed spec fn view(&self) -> UserTable {
        UserTable { rows: user_views(self.rows@), next_id: self.next_id as int }
    }
}

impl UserRepository {
    /// Whether the table keeps its rules.
    pub open spec fn wf(&self) -> bool {
        self@.wf()
    }

    /// An empty table.
    pub fn new() -> (r: Self)
        ensures
            r.wf(),
            r@.rows == Seq::<UserView>::empty(),
            r@.next_id == 1,
    {
        let r = UserRepository { rows: Vec::new(), next_id: 1 };
        assert(r@.rows =~= Seq::<UserView>::empty());
        r
    }

    /// A copy of the table as it stands.
    pub fn snapshot(&self) -> (r: Self)
        ensures
            r@ == self@,
    {
        let mut rows: Vec<User> = Vec::new();
        let mut i: usize = 0;
        while i < self.rows.len()
            invariant
                0 <= i <= self.rows.len(),
                rows@ == self.rows@.take(i as int),
            decreases self.rows.len() - i,
        {
            rows.push(self.rows[i].clone());
            assert(rows@ =~= self.rows@.take(i + 1));
            i = i + 1;
        }
        assert(rows@ =~= self.rows@);
        UserRepository { rows, next_id: self.next_id }
    }

    /// The rows of the table, in insertion order.
    pub fn rows(&self) -> (r: &Vec<User>)
        ensures
            user_views(r@) == self@.rows,
    {
        &self.rows
    }

    /// The table that holds `rows`, which come in insertion order, if they
    /// keep the rules of the table; the next identifier follows the last.
    pub fn from_rows(rows: Vec<User>) -> (r: Option<Self>)
        ensures
            r is Some == loaded_users(user_views(rows@)).wf(),
            r matches Some(table) ==> table@ == loaded_users(user_views(rows@)),
    {
        let ghost wanted = loaded_users(user_views(rows@));
        let n = rows.len();
        if n == 0 {
            return Some(UserRepository { rows, next_id: 1 });
        }
        if rows[n - 1].user_id == i64::MAX {
            assert(!(wanted.rows[n - 1].user_id < wanted.next_id <= i64::MAX));
            return None;
        }
        let next_id = rows[n - 1].user_id + 1;
        let mut j: usize = 0;
        while j < n
            invariant
                0 <= j <= n,
                n == rows.len(),
                wanted == loaded_users(user_views(rows@)),
                forall|a: int| 0 <= a < j ==> 1 <= (#[trigger] wanted.rows[a]).user_id,
                forall|a: int, b: int|
                    0 <= a < b < j ==> (#[trigger] wanted.rows[a]).user_id < (
                    #[trigger] wanted.rows[b]).user_id && wanted.rows[a].telegram_id
                        != wanted.rows[b].telegram_id,
            decreases n - j,
        {
            if rows[j].user_id < 1 {
                assert(!(1 <= wanted.rows[j as int].user_id));
                return None;
            }
            let mut i: usize = 0;
            while i < j
                invariant
                    0 <= i <= j < n,
                    n == rows.len(),
                    wanted == loaded_users(user_views(rows@)),
                    forall|a: int|
                        0 <= a < i ==> (#[trigger] wanted.rows[a]).user_id
                            < wanted.rows[j as int].user_id && wanted.rows[a].telegram_id
                            != wanted.rows[j as int].telegram_id,
                decreases j - i,
            {
                if rows[i].user_id >= rows[j].user_id || rows[i].telegram_id
                    == rows[j].telegram_id {
                    assert(!(wanted.rows[i as int].user_id < wanted.rows[j as int].user_id
                        && wanted.rows[i as int].telegram_id != wanted.rows[j as int].telegram_id));
                    return None;
                }
                i = i + 1;
            }
            j = j + 1;
        }
        proof {
            assert forall|a: int| 0 <= a < wanted.rows.len() implies 1 <= (
            #[trigger] wanted.rows[a]).user_id < wanted.next_id by {
                if a < n - 1 {
                    assert(wanted.rows[a].user_id < wanted.rows[n - 1].user_id);
                }
            }
        }
        Some(UserRepository { rows, next_id })
    }

    fn position(&self, telegram_id: i64) -> (r: Option<usize>)
        requires
            self.wf(),
        ensures
            r matches Some(i) ==> i < self@.rows.len() && self@.rows[i as int].telegram_id
                == telegram_id && self@.index_of(telegram_id) == i && self@.has_telegram_id(
                telegram_id,
            ),
            r is None ==> !self@.has_telegram_id(telegram_id),
    {
        let mut i: usize = 0;
        while i < self.rows.len()
            invariant
                self.wf(),
                0 <= i <= self.rows.len(),
                forall|k: int|
                    0 <= k < i ==> (#[trigger] self@.rows[k]).telegram_id != telegram_id,
            decreases self.rows.len() - i,
        {
            if self.rows[i].telegram_id == telegram_id {
                proof {
                    self@.lemma_index_of(telegram_id, i as int);
                }
                return Some(i);
            }
            i = i + 1;
        }
        None
    }

    /// Whether a user with the external identifier `telegram_id` is
    /// registered.
    pub fn exists_user(&self, telegram_id: i64) -> (r: bool)
        requires
            self.wf(),
        ensures
            r == self@.has_telegram_id(telegram_id),
    {
        self.position(telegram_id).is_some()
    }

    /// Registers a user and returns the internal identifier. Refuses a
    /// second row for the same external identifier.
    pub fn create(&mut self, telegram_id: i64, username: &str) -> (r: Result<i64, StorageError>)
        requires
            old(self).wf(),
        ensures
            final(self).wf(),
            old(self)@.has_telegram_id(telegram_id) ==> r == Err::<i64, StorageError>(
                StorageError::UniqueViolation,
            ) && final(self)@ == old(self)@,
            !old(self)@.has_telegram_id(telegram_id) && old(self)@.next_id == i64::MAX ==> r
                == Err::<i64, StorageError>(StorageError::Exhausted) && final(self)@ == old(
                self,
            )@,
            !old(self)@.has_telegram_id(telegram_id) && old(self)@.next_id < i64::MAX ==> r
                == Ok::<i64, StorageError>(old(self)@.next_id as i64) && final(self)@ == old(
                self,
            )@.inserted(telegram_id, username@),
    {
        if self.position(telegram_id).is_some() {
            return Err(StorageError::UniqueViolation);
        }
        if self.next_id == i64::MAX {
            return Err(StorageError::Exhausted);
        }
        let user_id = self.next_id;
        let ghost before = self@;
        self.rows.push(User { username: Some(username.to_owned()), user_id, telegram_id });
        self.next_id = user_id + 1;
        proof {
            before.lemma_inserted(telegram_id, username@);
            assert(self@.rows =~= before.inserted(telegram_id, username@).rows);
        }
        Ok(user_id)
    }

    /// The user with the external identifier `telegram_id`.
    pub fn get_user_by_telegram_id(&self, telegram_id: i64) -> (r: Option<User>)
        requires
            self.wf(),
        ensures
            r is Some == self@.has_telegram_id(telegram_id),
            r matches Some(u) ==> Some(u@) == self@.by_telegram_id(telegram_id),
    {
        match self.position(telegram_id) {
            None => None,
            Some(i) => Some(self.rows[i].clone()),
        }
    }
}

} // verus!
