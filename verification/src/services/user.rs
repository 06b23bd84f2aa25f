use crate::database::{Database, DatabaseView};
use crate::errors::{ServiceError, SomethingWentWrongError};
use crate::uow::UnitOfWork;
use vstd::prelude::*;

verus! {

/// What `add_user` does to the store and what it returns.
pub open spec fn add_user_spec(db: DatabaseView, telegram_id: i64, username: Seq<char>) -> (
    DatabaseView,
    Result<(), ServiceError>,
) {
    if db.users.has_telegram_id(telegram_id) {
        (db, Ok(()))
    } else if db.users.next_id == i64::MAX {
        (db, Err(ServiceError::SomethingWentWrong(SomethingWentWrongError)))
    } else {
        (DatabaseView { users: db.users.inserted(telegram_id, username), ..db }, Ok(()))
    }
}

/// Registers the chat user `telegram_id` unless a row for it is already
/// there.
pub fn add_user(db: &mut Database, telegram_id: i64, username: &str) -> (r: Result<
    (),
    ServiceError,
>)
    requires
        old(db).wf(),
    ensures
        final(db).wf(),
        (final(db)@, r) == add_user_spec(old(db)@, telegram_id, username@),
{
    let mut uow = UnitOfWork::new_transactional(db);
    if !uow.user_repo().exists_user(telegram_id) {
        let created = uow.user_repo_mut().create(telegram_id, username);
        if created.is_err() {
            return Err(ServiceError::SomethingWentWrong(SomethingWentWrongError));
        }
        uow.commit(db);
    }
    Ok(())
}

/// Registering is idempotent: a second `add_user` for the same external
/// identifier changes nothing, whatever name it brings, and once a
/// registration has gone through the table holds exactly one row for that
/// identifier.
pub proof fn lemma_add_user_idempotent(
    db: DatabaseView,
    telegram_id: i64,
    first_name: Seq<char>,
    second_name: Seq<char>,
)
    requires
        db.wf(),
    ensures
        ({
            let (once, first) = add_user_spec(db, telegram_id, first_name);
            let (twice, second) = add_user_spec(once, telegram_id, second_name);
            &&& once.wf()
            &&& twice == once
            &&& first is Ok ==> second is Ok && once.users.count(telegram_id) == 1
                && twice.users.count(telegram_id) == 1
        }),
{
    let (once, first) = add_user_spec(db, telegram_id, first_name);
    if db.users.has_telegram_id(telegram_id) {
        db.users.lemma_count(telegram_id);
    } else if db.users.next_id < i64::MAX {
        let after = db.users.inserted(telegram_id, first_name);
        db.users.lemma_inserted(telegram_id, first_name);
        after.lemma_count(telegram_id);
    }
}

} // verus!
