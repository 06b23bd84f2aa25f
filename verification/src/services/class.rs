use crate::database::{Database, DatabaseView};
use crate::errors::{
    ClassNotFoundError,
    DuplicateClassNameError,
    NotEnoughClassQuantityToChargeError,
    ServiceError,
    SomethingWentWrongError,
    UserNotFoundError,
};
use crate::repositories::class::{class_views, Class, ClassView};
use crate::repositories::class_deduction_history::{
    history_views,
    ClassDeductionHistory,
    ClassDeductionHistoryView,
};
use crate::repositories::storage::unique_violation_code;
use crate::text::same_text;
use crate::uow::UnitOfWork;
use vstd::prelude::*;

verus! {

/// The result code of a violated primary key.
pub open spec fn primary_key_code() -> Seq<char> {
    seq!['1', '5', '5', '5']
}

/// How a refused insertion of a class is reported: a violated uniqueness
/// rule means the name is taken, anything else is unclassified.
pub open spec fn insert_failure(code: Option<Seq<char>>) -> ServiceError {
    if code == Some(unique_violation_code()) || code == Some(primary_key_code()) {
        ServiceError::DuplicateClassName(DuplicateClassNameError)
    } else {
        ServiceError::SomethingWentWrong(SomethingWentWrongError)
    }
}

/// Turns the engine's code of a refused class insertion into the error
/// that the user sees.
pub fn classify_insert_failure(code: Option<&str>) -> (e: ServiceError)
    ensures
        e == insert_failure(
            match code {
                Some(text) => Some(text@),
                None => None,
            },
        ),
{
    proof {
        reveal_strlit("2067");
        reveal_strlit("1555");
    }
    assert("2067"@ =~= unique_violation_code());
    assert("1555"@ =~= primary_key_code());
    match code {
        Some(text) => {
            if same_text(text, "2067") || same_text(text, "1555") {
                ServiceError::DuplicateClassName(DuplicateClassNameError)
            } else {
                ServiceError::SomethingWentWrong(SomethingWentWrongError)
            }
        },
        None => ServiceError::SomethingWentWrong(SomethingWentWrongError),
    }
}

/// The internal identifier of the chat user `telegram_user_id`.
pub open spec fn resolve_user(db: DatabaseView, telegram_user_id: i64) -> Option<i64> {
    match db.users.by_telegram_id(telegram_user_id) {
        Some(user) => Some(user.user_id),
        None => None,
    }
}

/// What `add_class` does to the store and what it returns.
pub open spec fn add_class_spec(
    db: DatabaseView,
    name: Seq<char>,
    quantity: u8,
    telegram_user_id: i64,
) -> (DatabaseView, Result<i64, ServiceError>) {
    match resolve_user(db, telegram_user_id) {
        None => (db, Err(ServiceError::UserNotFound(UserNotFoundError))),
        Some(user_id) => {
            if db.classes.has_name(user_id, name) {
                (db, Err(ServiceError::DuplicateClassName(DuplicateClassNameError)))
            } else if db.classes.next_id == i64::MAX {
                (db, Err(ServiceError::SomethingWentWrong(SomethingWentWrongError)))
            } else {
                (
                    DatabaseView {
                        classes: db.classes.inserted(name, quantity, user_id),
                        ..db
                    },
                    Ok(db.classes.next_id as i64),
                )
            }
        },
    }
}

/// Adds a class called `name` with `quantity` sessions for the chat user
/// `telegram_user_id` and returns its identifier.
pub fn add_class(db: &mut Database, name: String, quantity: u8, telegram_user_id: i64) -> (r:
    Result<i64, ServiceError>)
    requires
        old(db).wf(),
    ensures
        final(db).wf(),
        (final(db)@, r) == add_class_spec(old(db)@, name@, quantity, telegram_user_id),
{
    let mut uow = UnitOfWork::new_transactional(db);
    let user_id = match uow.user_repo().get_user_by_telegram_id(telegram_user_id) {
        Some(u) => u.user_id,
        None => {
            return Err(ServiceError::UserNotFound(UserNotFoundError));
        },
    };
    let created = uow.class_repo_mut().create(name, quantity, user_id);
    let class_id = match created {
        Ok(class_id) => class_id,
        Err(err) => {
            return Err(classify_insert_failure(err.code()));
        },
    };
    uow.commit(db);
    Ok(class_id)
}

/// The value of a service result that holds a class.
pub open spec fn class_result_view(r: Result<Class, ServiceError>) -> Result<
    ClassView,
    ServiceError,
> {
    match r {
        Ok(class) => Ok(class@),
        Err(e) => Err(e),
    }
}

/// What `get_classes_by_user_id` returns.
pub open spec fn get_classes_spec(db: DatabaseView, telegram_user_id: i64) -> Result<
    Seq<ClassView>,
    ServiceError,
> {
    match resolve_user(db, telegram_user_id) {
        None => Err(ServiceError::UserNotFound(UserNotFoundError)),
        Some(user_id) => Ok(db.classes.of_user(user_id)),
    }
}

/// The classes of the chat user `telegram_user_id`, in insertion order.
pub fn get_classes_by_user_id(db: &Database, telegram_user_id: i64) -> (r: Result<
    Vec<Class>,
    ServiceError,
>)
    requires
        db.wf(),
    ensures
        match r {
            Ok(classes) => Ok::<Seq<ClassView>, ServiceError>(class_views(classes@)),
            Err(e) => Err(e),
        } == get_classes_spec(db@, telegram_user_id),
{
    let uow = UnitOfWork::new_readonly(db);
    let user_id = match uow.user_repo().get_user_by_telegram_id(telegram_user_id) {
        Some(u) => u.user_id,
        None => {
            return Err(ServiceError::UserNotFound(UserNotFoundError));
        },
    };
    let classes = uow.class_repo().get_user_classes(user_id);
    Ok(classes)
}

/// What `get_class_deduction_histories` returns.
pub open spec fn get_deduction_histories_spec(
    db: DatabaseView,
    class_id: i64,
    telegram_user_id: i64,
) -> Result<Seq<ClassDeductionHistoryView>, ServiceError> {
    match resolve_user(db, telegram_user_id) {
        None => Err(ServiceError::UserNotFound(UserNotFoundError)),
        Some(user_id) => Ok(db.class_deduction_histories.of_class(class_id, user_id)),
    }
}

/// The deductions that the chat user `telegram_user_id` made of the class
/// `class_id`, in insertion order.
pub fn get_class_deduction_histories(db: &Database, class_id: i64, telegram_user_id: i64) -> (r:
    Result<Vec<ClassDeductionHistory>, ServiceError>)
    requires
        db.wf(),
    ensures
        match r {
            Ok(rows) => Ok::<Seq<ClassDeductionHistoryView>, ServiceError>(history_views(rows@)),
            Err(e) => Err(e),
        } == get_deduction_histories_spec(db@, class_id, telegram_user_id),
{
    let uow = UnitOfWork::new_readonly(db);
    let user_id = match uow.user_repo().get_user_by_telegram_id(telegram_user_id) {
        Some(u) => u.user_id,
        None => {
            return Err(ServiceError::UserNotFound(UserNotFoundError));
        },
    };
    let histories = uow.class_deduction_history_repo().get_histories(class_id, user_id);
    Ok(histories)
}

/// What `deduct_class` does to the store and what it returns.
pub open spec fn deduct_class_spec(db: DatabaseView, class_id: i64, telegram_user_id: i64) -> (
    DatabaseView,
    Result<ClassView, ServiceError>,
) {
    match resolve_user(db, telegram_user_id) {
        None => (db, Err(ServiceError::UserNotFound(UserNotFoundError))),
        Some(user_id) => match db.classes.owned(class_id, user_id) {
            None => (db, Err(ServiceError::ClassNotFound(ClassNotFoundError))),
            Some(class) => {
                if class.quantity == 0 {
                    (
                        db,
                        Err(
                            ServiceError::NotEnoughClassQuantityToDeduct(
                                NotEnoughClassQuantityToChargeError(class.quantity),
                            ),
                        ),
                    )
                } else {
                    let left = (class.quantity - 1) as u8;
                    (
                        DatabaseView { classes: db.classes.with_quantity(class_id, left), ..db },
                        Ok(ClassView { quantity: left, ..class }),
                    )
                }
            },
        },
    }
}

/// Takes one session off the class `class_id` of the chat user
/// `telegram_user_id` and returns the class as it then stands.
pub fn deduct_class(db: &mut Database, class_id: i64, telegram_user_id: i64) -> (r: Result<
    Class,
    ServiceError,
>)
    requires
        old(db).wf(),
    ensures
        final(db).wf(),
        (final(db)@, class_result_view(r)) == deduct_class_spec(
            old(db)@,
            class_id,
            telegram_user_id,
        ),
{
    let mut uow = UnitOfWork::new_transactional(db);
    let user_id = match uow.user_repo().get_user_by_telegram_id(telegram_user_id) {
        Some(u) => u.user_id,
        None => {
            return Err(ServiceError::UserNotFound(UserNotFoundError));
        },
    };
    let class = match uow.class_repo().get_user_class_by_id(class_id, user_id) {
        Some(c) => c,
        None => {
            return Err(ServiceError::ClassNotFound(ClassNotFoundError));
        },
    };
    if class.quantity == 0 {
        return Err(
            ServiceError::NotEnoughClassQuantityToDeduct(
                NotEnoughClassQuantityToChargeError(class.quantity),
            ),
        );
    }
    let new_quantity = class.quantity - 1;
    let updated = uow.class_repo_mut().update_quantity(class.class_id, new_quantity);
    let updated_class = match updated {
        Ok(c) => c,
        Err(_) => {
            return Err(ServiceError::SomethingWentWrong(SomethingWentWrongError));
        },
    };
    uow.commit(db);
    Ok(updated_class)
}

/// What `add_class_deduction_history` does to the store and what it
/// returns.
pub open spec fn add_class_deduction_history_spec(
    db: DatabaseView,
    class_id: i64,
    telegram_user_id: i64,
    created_at: Seq<char>,
) -> (DatabaseView, Result<(), ServiceError>) {
    match resolve_user(db, telegram_user_id) {
        None => (db, Err(ServiceError::UserNotFound(UserNotFoundError))),
        Some(user_id) => {
            if db.class_deduction_histories.next_id == i64::MAX {
                (db, Err(ServiceError::SomethingWentWrong(SomethingWentWrongError)))
            } else {
                (
                    DatabaseView {
                        class_deduction_histories: db.class_deduction_histories.inserted(
                            class_id,
                            user_id,
                            created_at,
                        ),
                        ..db
                    },
                    Ok(()),
                )
            }
        },
    }
}

/// Records that the chat user `telegram_user_id` deducted the class
/// `class_id` at `created_at`.
pub fn add_class_deduction_history(
    db: &mut Database,
    class_id: i64,
    telegram_user_id: i64,
    created_at: String,
) -> (r: Result<(), ServiceError>)
    requires
        old(db).wf(),
    ensures
        final(db).wf(),
        (final(db)@, r) == add_class_deduction_history_spec(
            old(db)@,
            class_id,
            telegram_user_id,
            created_at@,
        ),
{
    let mut uow = UnitOfWork::new_transactional(db);
    let user_id = match uow.user_repo().get_user_by_telegram_id(telegram_user_id) {
        Some(u) => u.user_id,
        None => {
            return Err(ServiceError::UserNotFound(UserNotFoundError));
        },
    };
    let created = uow.class_deduction_history_repo_mut().create(class_id, user_id, created_at);
    if created.is_err() {
        return Err(ServiceError::SomethingWentWrong(SomethingWentWrongError));
    }
    uow.commit(db);
    Ok(())
}

/// What `update_class_quantity` does to the store and what it returns.
pub open spec fn update_class_quantity_spec(
    db: DatabaseView,
    class_id: i64,
    telegram_user_id: i64,
    quantity: u8,
) -> (DatabaseView, Result<ClassView, ServiceError>) {
    match resolve_user(db, telegram_user_id) {
        None => (db, Err(ServiceError::UserNotFound(UserNotFoundError))),
        Some(user_id) => match db.classes.owned(class_id, user_id) {
            None => (db, Err(ServiceError::ClassNotFound(ClassNotFoundError))),
            Some(class) => (
                DatabaseView { classes: db.classes.with_quantity(class_id, quantity), ..db },
                Ok(ClassView { quantity, ..class }),
            ),
        },
    }
}

/// Sets the quantity of the class `class_id` of the chat user
/// `telegram_user_id` and returns the class as it then stands.
pub fn update_class_quantity(
    db: &mut Database,
    class_id: i64,
    telegram_user_id: i64,
    quantity: u8,
) -> (r: Result<Class, ServiceError>)
    requires
        old(db).wf(),
    ensures
        final(db).wf(),
        (final(db)@, class_result_view(r)) == update_class_quantity_spec(
            old(db)@,
            class_id,
            telegram_user_id,
            quantity,
        ),
{
    let mut uow = UnitOfWork::new_transactional(db);
    let user_id = match uow.user_repo().get_user_by_telegram_id(telegram_user_id) {
        Some(u) => u.user_id,
        None => {
            return Err(ServiceError::UserNotFound(UserNotFoundError));
        },
    };
    let class = match uow.class_repo().get_user_class_by_id(class_id, user_id) {
        Some(c) => c,
        None => {
            return Err(ServiceError::ClassNotFound(ClassNotFoundError));
        },
    };
    let updated = uow.class_repo_mut().update_quantity(class.class_id, quantity);
    let updated_class = match updated {
        Ok(c) => c,
        Err(_) => {
            return Err(ServiceError::SomethingWentWrong(SomethingWentWrongError));
        },
    };
    uow.commit(db);
    Ok(updated_class)
}

/// A successful deduction takes exactly one session off the class and
/// touches nothing else; the history entry that follows it is exactly one
/// new row, which names that class and its owner.
pub proof fn lemma_deduction_recorded(
    db: DatabaseView,
    class_id: i64,
    telegram_user_id: i64,
    created_at: Seq<char>,
)
    requires
        db.wf(),
    ensures
        ({
            let (after, deducted) = deduct_class_spec(db, class_id, telegram_user_id);
            let (recorded, noted) = add_class_deduction_history_spec(
                after,
                class_id,
                telegram_user_id,
                created_at,
            );
            &&& after.wf()
            &&& recorded.wf()
            &&& deducted is Err ==> after == db
            &&& deducted is Ok ==> {
                &&& db.classes.by_id(class_id) is Some
                &&& after.classes.by_id(class_id) is Some
                &&& after.classes.by_id(class_id).unwrap().quantity == db.classes.by_id(
                    class_id,
                ).unwrap().quantity - 1
                &&& deducted.unwrap() == after.classes.by_id(class_id).unwrap()
                &&& forall|other: i64|
                    other != class_id ==> #[trigger] after.classes.by_id(other)
                        == db.classes.by_id(other)
                &&& after.classes.rows.len() == db.classes.rows.len()
                &&& after.class_deduction_histories == db.class_deduction_histories
                &&& after.users == db.users
                &&& after.daily_practice_logs == db.daily_practice_logs
                &&& noted is Ok ==> {
                    &&& recorded.classes == after.classes
                    &&& recorded.class_deduction_histories.rows.len()
                        == db.class_deduction_histories.rows.len() + 1
                    &&& recorded.class_deduction_histories.rows.drop_last()
                        == db.class_deduction_histories.rows
                    &&& recorded.class_deduction_histories.rows.last().class_id == class_id
                    &&& Some(recorded.class_deduction_histories.rows.last().user_id)
                        == resolve_user(db, telegram_user_id)
                    &&& recorded.class_deduction_histories.rows.last().created_at == created_at
                }
            }
        }),
{
    let (after, deducted) = deduct_class_spec(db, class_id, telegram_user_id);
    if deducted is Ok {
        let user_id = resolve_user(db, telegram_user_id).unwrap();
        let class = db.classes.owned(class_id, user_id).unwrap();
        let left = (class.quantity - 1) as u8;
        db.classes.lemma_with_quantity(class_id, left);
        let (recorded, noted) = add_class_deduction_history_spec(
            after,
            class_id,
            telegram_user_id,
            created_at,
        );
        if noted is Ok {
            assert(recorded.class_deduction_histories.rows.drop_last()
                =~= db.class_deduction_histories.rows);
        }
    } else {
        let (recorded, noted) = add_class_deduction_history_spec(
            after,
            class_id,
            telegram_user_id,
            created_at,
        );
        if noted is Ok {
            assert(recorded.class_deduction_histories.rows.drop_last()
                =~= db.class_deduction_histories.rows);
        }
    }
}

/// A successful update leaves the class with exactly the quantity that was
/// asked for, and appends no history entry.
pub proof fn lemma_update_sets_quantity(
    db: DatabaseView,
    class_id: i64,
    telegram_user_id: i64,
    quantity: u8,
)
    requires
        db.wf(),
    ensures
        ({
            let (after, updated) = update_class_quantity_spec(
                db,
                class_id,
                telegram_user_id,
                quantity,
            );
            &&& after.wf()
            &&& after.class_deduction_histories == db.class_deduction_histories
            &&& after.users == db.users
            &&& after.daily_practice_logs == db.daily_practice_logs
            &&& updated is Err ==> after == db
            &&& updated is Ok ==> {
                &&& after.classes.by_id(class_id) == Some(updated.unwrap())
                &&& updated.unwrap().quantity == quantity
                &&& forall|other: i64|
                    other != class_id ==> #[trigger] after.classes.by_id(other)
                        == db.classes.by_id(other)
            }
        }),
{
    let (after, updated) = update_class_quantity_spec(db, class_id, telegram_user_id, quantity);
    if updated is Ok {
        db.classes.lemma_with_quantity(class_id, quantity);
    }
}

/// What a chat user has just added is among the classes listed for that
/// user, with the name and the quantity that were given.
pub proof fn lemma_add_class_then_get_classes(
    db: DatabaseView,
    name: Seq<char>,
    quantity: u8,
    telegram_user_id: i64,
)
    requires
        db.wf(),
    ensures
        ({
            let (after, added) = add_class_spec(db, name, quantity, telegram_user_id);
            &&& after.wf()
            &&& added is Ok ==> {
                &&& get_classes_spec(after, telegram_user_id) is Ok
                &&& get_classes_spec(after, telegram_user_id).unwrap().len() > 0
                &&& get_classes_spec(after, telegram_user_id).unwrap().last().name == name
                &&& get_classes_spec(after, telegram_user_id).unwrap().last().quantity == quantity
                &&& get_classes_spec(after, telegram_user_id).unwrap().last().class_id
                    == added.unwrap()
                &&& Ok::<Seq<ClassView>, ServiceError>(
                    get_classes_spec(after, telegram_user_id).unwrap().drop_last(),
                ) == get_classes_spec(db, telegram_user_id)
            }
        }),
{
    let (after, added) = add_class_spec(db, name, quantity, telegram_user_id);
    if added is Ok {
        let user_id = resolve_user(db, telegram_user_id).unwrap();
        db.classes.lemma_inserted(name, quantity, user_id);
        let listed = get_classes_spec(after, telegram_user_id).unwrap();
        assert(listed.drop_last() =~= db.classes.of_user(user_id));
    }
}

/// No class operation looks at or changes a row of another user: what is
/// listed belongs to the caller, a class of another user is never found,
/// and the rows of other users stay as they were.
pub proof fn lemma_class_ownership(
    db: DatabaseView,
    class_id: i64,
    telegram_user_id: i64,
    quantity: u8,
    name: Seq<char>,
)
    requires
        db.wf(),
        resolve_user(db, telegram_user_id) is Some,
    ensures
        ({
            let user_id = resolve_user(db, telegram_user_id).unwrap();
            let listed = get_classes_spec(db, telegram_user_id).unwrap();
            let histories = get_deduction_histories_spec(db, class_id, telegram_user_id).unwrap();
            let deducted = deduct_class_spec(db, class_id, telegram_user_id).0;
            let updated = update_class_quantity_spec(db, class_id, telegram_user_id, quantity).0;
            let added = add_class_spec(db, name, quantity, telegram_user_id).0;
            &&& forall|i: int| 0 <= i < listed.len() ==> (#[trigger] listed[i]).user_id == user_id
            &&& db.classes.owned(class_id, user_id) matches Some(found) ==> found.user_id
                == user_id && found.class_id == class_id
            &&& forall|i: int|
                0 <= i < histories.len() ==> (#[trigger] histories[i]).user_id == user_id
            &&& forall|i: int|
                0 <= i < db.classes.rows.len() && db.classes.rows[i].user_id != user_id ==> {
                    &&& #[trigger] deducted.classes.rows[i] == db.classes.rows[i]
                    &&& #[trigger] updated.classes.rows[i] == db.classes.rows[i]
                    &&& #[trigger] added.classes.rows[i] == db.classes.rows[i]
                }
            &&& deducted.classes.rows.len() == db.classes.rows.len()
            &&& updated.classes.rows.len() == db.classes.rows.len()
            &&& added != db ==> added.classes.rows.len() == db.classes.rows.len() + 1
                && added.classes.rows.last().user_id == user_id
        }),
{
    let user_id = resolve_user(db, telegram_user_id).unwrap();
    db.classes.lemma_of_user_scoped(user_id);
    let histories = get_deduction_histories_spec(db, class_id, telegram_user_id).unwrap();
    assert forall|i: int| 0 <= i < histories.len() implies (#[trigger] histories[i]).user_id
        == user_id by {
        db.class_deduction_histories.rows.lemma_filter_pred(
            |h: ClassDeductionHistoryView| h.user_id == user_id && h.class_id == class_id,
            i,
        );
    }
    if db.classes.owned(class_id, user_id) is Some {
        let class = db.classes.owned(class_id, user_id).unwrap();
        let at = db.classes.index_of(class_id);
        assert(db.classes.rows[at].user_id == user_id);
        db.classes.lemma_with_quantity(class_id, quantity);
        if class.quantity > 0 {
            db.classes.lemma_with_quantity(class_id, (class.quantity - 1) as u8);
        }
    }
}

} // verus!
