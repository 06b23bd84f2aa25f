use crate::database::{Database, DatabaseView};
use crate::errors::{ServiceError, SomethingWentWrongError, UserNotFoundError};
use crate::repositories::daily_practice_log::{log_views, DailyPracticeLog, DailyPracticeLogView};
use crate::services::class::resolve_user;
use crate::uow::UnitOfWork;
use vstd::prelude::*;

verus! {

/// What `add_daily_practice_entry` does to the store and what it returns.
pub open spec fn add_daily_practice_entry_spec(
    db: DatabaseView,
    minutes: u16,
    telegram_user_id: i64,
    created_at: Seq<char>,
) -> (DatabaseView, Result<i64, ServiceError>) {
    match resolve_user(db, telegram_user_id) {
        None => (db, Err(ServiceError::UserNotFound(UserNotFoundError))),
        Some(user_id) => {
            if db.daily_practice_logs.next_id() == i64::MAX {
                (db, Err(ServiceError::SomethingWentWrong(SomethingWentWrongError)))
            } else {
                (
                    DatabaseView {
                        daily_practice_logs: db.daily_practice_logs.inserted(
                            minutes,
                            user_id,
                            created_at,
                        ),
                        ..db
                    },
                    Ok(db.daily_practice_logs.next_id() as i64),
                )
            }
        },
    }
}

/// Appends an entry of `minutes` to the practice log of the chat user
/// `telegram_user_id`, made at `created_at`, and returns its identifier.
pub fn add_daily_practice_entry(
    db: &mut Database,
    minutes: u16,
    telegram_user_id: i64,
    created_at: String,
) -> (r: Result<i64, ServiceError>)
    requires
        old(db).wf(),
    ensures
        final(db).wf(),
        (final(db)@, r) == add_daily_practice_entry_spec(
            old(db)@,
            minutes,
            telegram_user_id,
            created_at@,
        ),
{
    let mut uow = UnitOfWork::new_transactional(db);
    let user_id = match uow.user_repo().get_user_by_telegram_id(telegram_user_id) {
        Some(u) => u.user_id,
        None => {
            return Err(ServiceError::UserNotFound(UserNotFoundError));
        },
    };
    let created = uow.daily_practice_log_repo_mut().create(minutes, user_id, created_at);
    let daily_practice_entry_id = match created {
        Ok(daily_practice_entry_id) => daily_practice_entry_id,
        Err(_) => {
            return Err(ServiceError::SomethingWentWrong(SomethingWentWrongError));
        },
    };
    uow.commit(db);
    Ok(daily_practice_entry_id)
}

/// What `get_daily_practice_log_history` returns.
pub open spec fn get_daily_practice_log_history_spec(
    db: DatabaseView,
    telegram_user_id: i64,
) -> Result<Seq<DailyPracticeLogView>, ServiceError> {
    match resolve_user(db, telegram_user_id) {
        None => Err(ServiceError::UserNotFound(UserNotFoundError)),
        Some(user_id) => Ok(db.daily_practice_logs.of_user(user_id)),
    }
}

/// The practice entries of the chat user `telegram_user_id`, in insertion
/// order.
pub fn get_daily_practice_log_history(db: &Database, telegram_user_id: i64) -> (r: Result<
    Vec<DailyPracticeLog>,
    ServiceError,
>)
    requires
        db.wf(),
    ensures
        match r {
            Ok(rows) => Ok::<Seq<DailyPracticeLogView>, ServiceError>(log_views(rows@)),
            Err(e) => Err(e),
        } == get_daily_practice_log_history_spec(db@, telegram_user_id),
{
    let uow = UnitOfWork::new_readonly(db);
    let user_id = match uow.user_repo().get_user_by_telegram_id(telegram_user_id) {
        Some(u) => u.user_id,
        None => {
            return Err(ServiceError::UserNotFound(UserNotFoundError));
        },
    };
    let records = uow.daily_practice_log_repo().get_all(user_id);
    Ok(records)
}

/// What a chat user has just logged is the last entry of that user's
/// history, with the minutes that were given; the entries before it are
/// the history as it was, and all of them belong to that user.
pub proof fn lemma_add_entry_then_history(
    db: DatabaseView,
    minutes: u16,
    telegram_user_id: i64,
    created_at: Seq<char>,
)
    requires
        db.wf(),
    ensures
        ({
            let (after, added) = add_daily_practice_entry_spec(
                db,
                minutes,
                telegram_user_id,
                created_at,
            );
            let history = get_daily_practice_log_history_spec(after, telegram_user_id);
            &&& after.wf()
            &&& added is Err ==> after == db
            &&& added is Ok ==> {
                &&& history is Ok
                &&& history.unwrap().len() > 0
                &&& history.unwrap().last().minutes == minutes
                &&& history.unwrap().last().created_at == created_at
                &&& Ok::<Seq<DailyPracticeLogView>, ServiceError>(history.unwrap().drop_last())
                    == get_daily_practice_log_history_spec(db, telegram_user_id)
                &&& forall|i: int|
                    0 <= i < history.unwrap().len() ==> Some(
                        (#[trigger] history.unwrap()[i]).user_id,
                    ) == resolve_user(db, telegram_user_id)
            }
        }),
{
    reveal(Seq::filter);
    let (after, added) = add_daily_practice_entry_spec(db, minutes, telegram_user_id, created_at);
    if added is Ok {
        let user_id = resolve_user(db, telegram_user_id).unwrap();
        let pred = |l: DailyPracticeLogView| l.user_id == user_id;
        assert(after.daily_practice_logs.rows.drop_last() =~= db.daily_practice_logs.rows);
        let history = get_daily_practice_log_history_spec(after, telegram_user_id).unwrap();
        assert(history.drop_last() =~= db.daily_practice_logs.of_user(user_id));
        assert forall|i: int| 0 <= i < history.len() implies (#[trigger] history[i]).user_id
            == user_id by {
            after.daily_practice_logs.rows.lemma_filter_pred(pred, i);
        }
    }
}

} // verus!
