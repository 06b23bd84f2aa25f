use crate::repositories::storage::StorageError;
use crate::text::{decimal_digits, push_decimal};
use vstd::prelude::*;

verus! {

/// A user's named bucket of remaining sessions.
#[derive(Debug, PartialEq, Eq)]
pub struct Class {
    pub name: String,
    pub class_id: i64,
    pub user_id: i64,
    pub quantity: u8,
}

/// Mathematical value of a class row.
pub struct ClassView {
    pub name: Seq<char>,
    pub class_id: i64,
    pub user_id: i64,
    pub quantity: u8,
}

impl View for Class {
    type V = ClassView;

    open spec fn view(&self) -> ClassView {
        ClassView {
            name: self.name@,
            class_id: self.class_id,
            user_id: self.user_id,
            quantity: self.quantity,
        }
    }
}

impl ClassView {
    /// How the class is shown in a list: the name, then the remaining
    /// quantity in parentheses.
    pub open spec fn rendered(self) -> Seq<char> {
        self.name + " ("@ + decimal_digits(self.quantity as nat) + ")"@
    }
}

impl Class {
    /// How the class is shown in a list: the name, then the remaining
    /// quantity in parentheses.
    pub fn to_string(&self) -> (text: String)
        ensures
            text@ == self@.rendered(),
    {
        let mut text = self.name.clone();
        text.append(" (");
        push_decimal(&mut text, self.quantity as u64);
        text.append(")");
        text
    }
}

impl Clone for Class {
    fn clone(&self) -> (r: Self)
        ensures
            r == *self,
    {
        Class {
            name: self.name.clone(),
            class_id: self.class_id,
            user_id: self.user_id,
            quantity: self.quantity,
        }
    }
}

/// The values of a list of class rows.
pub open spec fn class_views(rows: Seq<Class>) -> Seq<ClassView> {
    rows.map_values(|c: Class| c@)
}

/// Mathematical value of the `class` table: its rows in insertion order and
/// the identifier that the next row will get.
pub struct ClassTable {
    pub rows: Seq<ClassView>,
    pub next_id: int,
}

impl ClassTable {
    /// Identifiers are positive, grow with insertion and stay below the
    /// next one; no user has two classes of one name.
    pub open spec fn wf(self) -> bool {
        &&& 1 <= self.next_id <= i64::MAX
        &&& forall|i: int|
            0 <= i < self.rows.len() ==> 1 <= (#[trigger] self.rows[i]).class_id < self.next_id
        &&& forall|i: int, j: int|
            0 <= i < j < self.rows.len() ==> (#[trigger] self.rows[i]).class_id < (
            #[trigger] self.rows[j]).class_id
        &&& forall|i: int, j: int|
            0 <= i < j < self.rows.len() ==> !((#[trigger] self.rows[i]).user_id == (
            #[trigger] self.rows[j]).user_id && self.rows[i].name == self.rows[j].name)
    }

    /// Whether a row has the identifier `class_id`.
    pub open spec fn has_id(self, class_id: i64) -> bool {
        exists|i: int| 0 <= i < self.rows.len() && (#[trigger] self.rows[i]).class_id == class_id
    }

    /// Where the row with the identifier `class_id` stands.
    pub open spec fn index_of(self, class_id: i64) -> int {
        choose|i: int| 0 <= i < self.rows.len() && (#[trigger] self.rows[i]).class_id == class_id
    }

    /// The row with the identifier `class_id`.
    pub open spec fn by_id(self, class_id: i64) -> Option<ClassView> {
        if self.has_id(class_id) {
            Some(self.rows[self.index_of(class_id)])
        } else {
            None
        }
    }

    /// The row with the identifier `class_id`, if `user_id` owns it.
    pub open spec fn owned(self, class_id: i64, user_id: i64) -> Option<ClassView> {
        match self.by_id(class_id) {
            Some(c) => if c.user_id == user_id {
                Some(c)
            } else {
                None
            },
            None => None,
        }
    }

    /// Whether `user_id` has a class called `name`.
    pub open spec fn has_name(self, user_id: i64, name: Seq<char>) -> bool {
        exists|i: int|
            0 <= i < self.rows.len() && (#[trigger] self.rows[i]).user_id == user_id
                && self.rows[i].name == name
    }

    /// The classes of `user_id`, in insertion order.
    pub open spec fn of_user(self, user_id: i64) -> Seq<ClassView> {
        self.rows.filter(|c: ClassView| c.user_id == user_id)
    }

    /// The table after one more row.
    pub open spec fn inserted(self, name: Seq<char>, quantity: u8, user_id: i64) -> ClassTable {
        ClassTable {
            rows: self.rows.push(
                ClassView { name, class_id: self.next_id as i64, user_id, quantity },
            ),
            next_id: self.next_id + 1,
        }
    }

    /// The table after the row `class_id` got the quantity `quantity`.
    pub open spec fn with_quantity(self, class_id: i64, quantity: u8) -> ClassTable {
        let i = self.index_of(class_id);
        ClassTable {
            rows: self.rows.update(i, ClassView { quantity, ..self.rows[i] }),
            next_id: self.next_id,
        }
    }

    /// In a well-formed table an identifier names at most one row.
    pub proof fn lemma_index_of(self, class_id: i64, i: int)
        requires
            self.wf(),
            0 <= i < self.rows.len(),
            self.rows[i].class_id == class_id,
        ensures
            self.has_id(class_id),
            self.index_of(class_id) == i,
            self.by_id(class_id) == Some(self.rows[i]),
    {
        let j = self.index_of(class_id);
        if j < i {
            assert(self.rows[j].class_id < self.rows[i].class_id);
        } else if i < j {
            assert(self.rows[i].class_id < self.rows[j].class_id);
        }
    }

    /// Inserting a class under a free name keeps the table well formed and
    /// puts the new row last among the classes of its owner.
    pub proof fn lemma_inserted(self, name: Seq<char>, quantity: u8, user_id: i64)
        requires
            self.wf(),
            !self.has_name(user_id, name),
            self.next_id < i64::MAX,
        ensures
            self.inserted(name, quantity, user_id).wf(),
            self.inserted(name, quantity, user_id).of_user(user_id) == self.of_user(user_id).push(
                ClassView { name, class_id: self.next_id as i64, user_id, quantity },
            ),
            self.inserted(name, quantity, user_id).by_id(self.next_id as i64) == Some(
                ClassView { name, class_id: self.next_id as i64, user_id, quantity },
            ),
    {
        reveal(Seq::filter);
        let after = self.inserted(name, quantity, user_id);
        let last = self.rows.len() as int;
        assert(after.rows.drop_last() =~= self.rows);
        assert forall|i: int, j: int| 0 <= i < j < after.rows.len() implies !((
        #[trigger] after.rows[i]).user_id == (#[trigger] after.rows[j]).user_id
            && after.rows[i].name == after.rows[j].name) by {
            if j == last {
                assert(!(self.rows[i].user_id == user_id && self.rows[i].name == name));
            } else {
                assert(!(self.rows[i].user_id == self.rows[j].user_id && self.rows[i].name
                    == self.rows[j].name));
            }
        }
        assert forall|i: int, j: int| 0 <= i < j < after.rows.len() implies (
        #[trigger] after.rows[i]).class_id < (#[trigger] after.rows[j]).class_id by {
            if j == last {
                assert(self.rows[i].class_id < self.next_id);
            } else {
                assert(self.rows[i].class_id < self.rows[j].class_id);
            }
        }
        assert forall|i: int| 0 <= i < after.rows.len() implies 1 <= (
        #[trigger] after.rows[i]).class_id < after.next_id by {
            if i < last {
                assert(1 <= self.rows[i].class_id < self.next_id);
            }
        }
        after.lemma_index_of(self.next_id as i64, last);
    }

    /// Setting the quantity of a class keeps the table well formed, changes
    /// that one row only, and only its quantity.
    pub proof fn lemma_with_quantity(self, class_id: i64, quantity: u8)
        requires
            self.wf(),
            self.has_id(class_id),
        ensures
            self.with_quantity(class_id, quantity).wf(),
            self.with_quantity(class_id, quantity).rows.len() == self.rows.len(),
            self.with_quantity(class_id, quantity).by_id(class_id) == Some(
                ClassView { quantity, ..self.by_id(class_id).unwrap() },
            ),
            forall|other: i64|
                other != class_id ==> #[trigger] self.with_quantity(class_id, quantity).by_id(other)
                    == self.by_id(other),
            forall|i: int|
                0 <= i < self.rows.len() && self.rows[i].class_id != class_id
                    ==> #[trigger] self.with_quantity(class_id, quantity).rows[i] == self.rows[i],
    {
        let after = self.with_quantity(class_id, quantity);
        let at = self.index_of(class_id);
        assert forall|a: int| 0 <= a < after.rows.len() implies (#[trigger] after.rows[a]).class_id
            == self.rows[a].class_id && after.rows[a].user_id == self.rows[a].user_id
            && after.rows[a].name == self.rows[a].name by {}
        assert forall|a: int, b: int| 0 <= a < b < after.rows.len() implies (
        #[trigger] after.rows[a]).class_id < (#[trigger] after.rows[b]).class_id by {
            assert(self.rows[a].class_id < self.rows[b].class_id);
        }
        assert forall|a: int, b: int| 0 <= a < b < after.rows.len() implies !((
        #[trigger] after.rows[a]).user_id == (#[trigger] after.rows[b]).user_id
            && after.rows[a].name == after.rows[b].name) by {
            assert(!(self.rows[a].user_id == self.rows[b].user_id && self.rows[a].name
                == self.rows[b].name));
        }
        assert forall|a: int| 0 <= a < after.rows.len() implies 1 <= (
        #[trigger] after.rows[a]).class_id < after.next_id by {
            assert(1 <= self.rows[a].class_id < self.next_id);
        }
        after.lemma_index_of(class_id, at);
        assert forall|other: i64| other != class_id implies #[trigger] after.by_id(other)
            == self.by_id(other) by {
            if self.has_id(other) {
                let k = self.index_of(other);
                self.lemma_index_of(other, k);
                assert(after.rows[k].class_id == other);
                after.lemma_index_of(other, k);
            } else if after.has_id(other) {
                let k = after.index_of(other);
                assert(self.rows[k].class_id == other);
            }
        }
    }

    /// Every class listed for a user belongs to that user.
    pub proof fn lemma_of_user_scoped(self, user_id: i64)
        ensures
            forall|i: int|
                0 <= i < self.of_user(user_id).len() ==> (#[trigger] self.of_user(
                    user_id,
                )[i]).user_id == user_id,
    {
        let pred = |c: ClassView| c.user_id == user_id;
        assert forall|i: int| 0 <= i < self.of_user(user_id).len() implies (
        #[trigger] self.of_user(user_id)[i]).user_id == user_id by {
            self.rows.lemma_filter_pred(pred, i);
        }
    }
}

/// The table that holds `rows`, with the next identifier after the last.
pub open spec fn loaded_classes(rows: Seq<ClassView>) -> ClassTable {
    ClassTable {
        rows,
        next_id: if rows.len() == 0 {
            1
        } else {
            rows.last().class_id + 1
        },
    }
}

/// The `class` table.
pub struct ClassRepository {
    rows: Vec<Class>,
    next_id: i64,
}

impl View for ClassRepository {
    type V = ClassTable;

    closed spec fn view(&self) -> ClassTable {
        ClassTable { rows: class_views(self.rows@), next_id: self.next_id as int }
    }
}

impl ClassRepository {
    /// Whether the table keeps its rules.
    pub open spec fn wf(&self) -> bool {
        self@.wf()
    }

    /// An empty table.
    pub fn new() -> (r: Self)
        ensures
            r.wf(),
            r@.rows == Seq::<ClassView>::empty(),
            r@.next_id == 1,
    {
        let r = ClassRepository { rows: Vec::new(), next_id: 1 };
        assert(r@.rows =~= Seq::<ClassView>::empty());
        r
    }

    /// A copy of the table as it stands.
    pub fn snapshot(&self) -> (r: Self)
        ensures
            r@ == self@,
    {
        let mut rows: Vec<Class> = Vec::new();
        let mut i: usize = 0;
        while i < self.rows.len()
            invariant
                0 <= i <= self.rows.len(),
                rows@ == self.rows@.take(i as int),
            decreases self.rows.len() - i,
        {
            rows.push(self.rows[i].clone());
            assert(rows@ =~= self.rows@.take(i + 1));
            i = i + 1;
        }
        assert(rows@ =~= self.rows@);
        ClassRepository { rows, next_id: self.next_id }
    }

    /// The rows of the table, in insertion order.
    pub fn rows(&self) -> (r: &Vec<Class>)
        ensures
            class_views(r@) == self@.rows,
    {
        &self.rows
    }

    /// The table that holds `rows`, which come in insertion order, if they
    /// keep the rules of the table; the next identifier follows the last.
    pub fn from_rows(rows: Vec<Class>) -> (r: Option<Self>)
        ensures
            r is Some == loaded_classes(class_views(rows@)).wf(),
            r matches Some(table) ==> table@ == loaded_classes(class_views(rows@)),
    {
        let ghost wanted = loaded_classes(class_views(rows@));
        let n = rows.len();
        if n == 0 {
            return Some(ClassRepository { rows, next_id: 1 });
        }
        if rows[n - 1].class_id == i64::MAX {
            assert(!(wanted.rows[n - 1].class_id < wanted.next_id <= i64::MAX));
            return None;
        }
        let next_id = rows[n - 1].class_id + 1;
        let mut j: usize = 0;
        while j < n
            invariant
                0 <= j <= n,
                n == rows.len(),
                wanted == loaded_classes(class_views(rows@)),
                forall|a: int| 0 <= a < j ==> 1 <= (#[trigger] wanted.rows[a]).class_id,
                forall|a: int, b: int|
                    0 <= a < b < j ==> (#[trigger] wanted.rows[a]).class_id < (
                    #[trigger] wanted.rows[b]).class_id && !(wanted.rows[a].user_id
                        == wanted.rows[b].user_id && wanted.rows[a].name == wanted.rows[b].name),
            decreases n - j,
        {
            if rows[j].class_id < 1 {
                assert(!(1 <= wanted.rows[j as int].class_id));
                return None;
            }
            let mut i: usize = 0;
            while i < j
                invariant
                    0 <= i <= j < n,
                    n == rows.len(),
                    wanted == loaded_classes(class_views(rows@)),
                    forall|a: int|
                        0 <= a < i ==> (#[trigger] wanted.rows[a]).class_id
                            < wanted.rows[j as int].class_id && !(wanted.rows[a].user_id
                            == wanted.rows[j as int].user_id && wanted.rows[a].name
                            == wanted.rows[j as int].name),
                decreases j - i,
            {
                if rows[i].class_id >= rows[j].class_id || (rows[i].user_id == rows[j].user_id
                    && rows[i].name == rows[j].name) {
                    assert(!(wanted.rows[i as int].class_id < wanted.rows[j as int].class_id && !(
                    wanted.rows[i as int].user_id == wanted.rows[j as int].user_id
                        && wanted.rows[i as int].name == wanted.rows[j as int].name)));
                    return None;
                }
                i = i + 1;
            }
            j = j + 1;
        }
        proof {
            assert forall|a: int| 0 <= a < wanted.rows.len() implies 1 <= (
            #[trigger] wanted.rows[a]).class_id < wanted.next_id by {
                if a < n - 1 {
                    assert(wanted.rows[a].class_id < wanted.rows[n - 1].class_id);
                }
            }
            assert forall|a: int, b: int| 0 <= a < b < wanted.rows.len() implies (
            #[trigger] wanted.rows[a]).class_id < (#[trigger] wanted.rows[b]).class_id by {}
            assert forall|a: int, b: int| 0 <= a < b < wanted.rows.len() implies !((
            #[trigger] wanted.rows[a]).user_id == (#[trigger] wanted.rows[b]).user_id
                && wanted.rows[a].name == wanted.rows[b].name) by {
                assert(wanted.rows[a].class_id < wanted.rows[b].class_id);
            }
            assert(1 <= wanted.rows[n - 1].class_id);
        }
        Some(ClassRepository { rows, next_id })
    }

    fn position(&self, class_id: i64) -> (r: Option<usize>)
        requires
            self.wf(),
        ensures
            r matches Some(i) ==> i < self@.rows.len() && self@.rows[i as int].class_id == class_id
                && self@.index_of(class_id) == i && self@.has_id(class_id),
            r is None ==> !self@.has_id(class_id),
    {
        let mut i: usize = 0;
        while i < self.rows.len()
            invariant
                self.wf(),
                0 <= i <= self.rows.len(),
                forall|k: int| 0 <= k < i ==> (#[trigger] self@.rows[k]).class_id != class_id,
            decreases self.rows.len() - i,
        {
            if self.rows[i].class_id == class_id {
                proof {
                    self@.lemma_index_of(class_id, i as int);
                }
                return Some(i);
            }
            i = i + 1;
        }
        None
    }

    fn name_taken(&self, user_id: i64, name: &String) -> (r: bool)
        ensures
            r == self@.has_name(user_id, name@),
    {
        let mut i: usize = 0;
        while i < self.rows.len()
            invariant
                0 <= i <= self.rows.len(),
                forall|k: int|
                    0 <= k < i ==> !((#[trigger] self@.rows[k]).user_id == user_id
                        && self@.rows[k].name == name@),
            decreases self.rows.len() - i,
        {
            if self.rows[i].user_id == user_id && self.rows[i].name == *name {
                assert(self@.rows[i as int].user_id == user_id);
                return true;
            }
            i = i + 1;
        }
        false
    }

    /// Inserts a class for `user_id` and returns its identifier. Refuses a
    /// second class of the same name for the same user.
    pub fn create(&mut self, name: String, quantity: u8, user_id: i64) -> (r: Result<
        i64,
        StorageError,
    >)
        requires
            old(self).wf(),
        ensures
            final(self).wf(),
            old(self)@.has_name(user_id, name@) ==> r == Err::<i64, StorageError>(
                StorageError::UniqueViolation,
            ) && final(self)@ == old(self)@,
            !old(self)@.has_name(user_id, name@) && old(self)@.next_id == i64::MAX ==> r == Err::<
                i64,
                StorageError,
            >(StorageError::Exhausted) && final(self)@ == old(self)@,
            !old(self)@.has_name(user_id, name@) && old(self)@.next_id < i64::MAX ==> r == Ok::<
                i64,
                StorageError,
            >(old(self)@.next_id as i64) && final(self)@ == old(self)@.inserted(
                name@,
                quantity,
                user_id,
            ),
    {
        if self.name_taken(user_id, &name) {
            return Err(StorageError::UniqueViolation);
        }
        if self.next_id == i64::MAX {
            return Err(StorageError::Exhausted);
        }
        let class_id = self.next_id;
        let ghost before = self@;
        let ghost name_view = name@;
        self.rows.push(Class { name, class_id, user_id, quantity });
        self.next_id = class_id + 1;
        proof {
            before.lemma_inserted(name_view, quantity, user_id);
            assert(self@.rows =~= before.inserted(name_view, quantity, user_id).rows);
        }
        Ok(class_id)
    }

    /// Sets the quantity of the class `class_id` and returns the row as it
    /// then stands.
    pub fn update_quantity(&mut self, class_id: i64, quantity: u8) -> (r: Result<
        Class,
        StorageError,
    >)
        requires
            old(self).wf(),
        ensures
            final(self).wf(),
            !old(self)@.has_id(class_id) ==> r == Err::<Class, StorageError>(
                StorageError::RowNotFound,
            ) && final(self)@ == old(self)@,
            old(self)@.has_id(class_id) ==> final(self)@ == old(self)@.with_quantity(
                class_id,
                quantity,
            ) && r is Ok && Some(r.unwrap()@) == final(self)@.by_id(class_id) && r.unwrap()@ == (
            ClassView { quantity, ..old(self)@.by_id(class_id).unwrap() }),
    {
        match self.position(class_id) {
            None => Err(StorageError::RowNotFound),
            Some(i) => {
                let ghost before = self@;
                let row = Class {
                    name: self.rows[i].name.clone(),
                    class_id: self.rows[i].class_id,
                    user_id: self.rows[i].user_id,
                    quantity,
                };
                let copy = row.clone();
                self.rows.set(i, row);
                proof {
                    before.lemma_with_quantity(class_id, quantity);
                    assert(self@.rows =~= before.with_quantity(class_id, quantity).rows);
                }
                Ok(copy)
            },
        }
    }

    /// The class `class_id`, if it belongs to `user_id`.
    pub fn get_user_class_by_id(&self, class_id: i64, user_id: i64) -> (r: Option<Class>)
        requires
            self.wf(),
        ensures
            r is Some == self@.owned(class_id, user_id) is Some,
            r matches Some(c) ==> Some(c@) == self@.owned(class_id, user_id),
    {
        match self.position(class_id) {
            None => None,
            Some(i) => {
                if self.rows[i].user_id == user_id {
                    Some(self.rows[i].clone())
                } else {
                    None
                }
            },
        }
    }

    /// The classes of `user_id`, in insertion order.
    pub fn get_user_classes(&self, user_id: i64) -> (r: Vec<Class>)
        ensures
            class_views(r@) == self@.of_user(user_id),
    {
        let mut out: Vec<Class> = Vec::new();
        let ghost pred = |c: ClassView| c.user_id == user_id;
        let mut i: usize = 0;
        proof {
            reveal(Seq::filter);
            assert(self@.rows.take(0).filter(pred) =~= Seq::<ClassView>::empty());
            assert(class_views(out@) =~= Seq::<ClassView>::empty());
        }
        while i < self.rows.len()
            invariant
                0 <= i <= self.rows.len(),
                pred == |c: ClassView| c.user_id == user_id,
                class_views(out@) == self@.rows.take(i as int).filter(pred),
            decreases self.rows.len() - i,
        {
            let ghost before = out@;
            if self.rows[i].user_id == user_id {
                out.push(self.rows[i].clone());
            }
            proof {
                reveal(Seq::filter);
                let next = self@.rows.take(i + 1);
                assert(next.drop_last() =~= self@.rows.take(i as int));
                assert(next.last() == self@.rows[i as int]);
                if pred(self@.rows[i as int]) {
                    assert(class_views(out@) =~= class_views(before).push(self@.rows[i as int]));
                }
            }
            i = i + 1;
        }
        assert(self@.rows.take(i as int) =~= self@.rows);
        out
    }
}

} // verus!
