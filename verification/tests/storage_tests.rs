use assistant_bot::database::Database;
use assistant_bot::repositories::class::{Class, ClassRepository};
use assistant_bot::repositories::class_deduction_history::{
    ClassDeductionHistory, ClassDeductionHistoryRepository,
};
use assistant_bot::repositories::daily_practice_log::{
    DailyPracticeLog, DailyPracticeLogRepository,
};
use assistant_bot::repositories::storage::StorageError;
use assistant_bot::repositories::user::{User, UserRepository};
use assistant_bot::state::{InMemStorage, State};
use assistant_bot::uow::UnitOfWork;

fn class(class_id: i64, user_id: i64, name: &str, quantity: u8) -> Class {
    Class { name: name.to_string(), class_id, user_id, quantity }
}

fn user(user_id: i64, telegram_id: i64) -> User {
    User { username: None, user_id, telegram_id }
}

#[test]
fn user_table_refuses_a_second_row_for_one_external_id() {
    let mut users = UserRepository::new();
    assert_eq!(users.create(1001, "alice"), Ok(1));
    assert_eq!(users.create(1001, "other"), Err(StorageError::UniqueViolation));
    assert_eq!(users.create(1002, "bob"), Ok(2));
    assert_eq!(users.rows().len(), 2);
    assert_eq!(users.get_user_by_telegram_id(1002).unwrap().user_id, 2);
    assert_eq!(users.get_user_by_telegram_id(1002).unwrap().username.as_deref(), Some("bob"));
    assert_eq!(users.get_user_by_telegram_id(1003), None);
}

#[test]
fn class_table_updates_one_row() {
    let mut classes = ClassRepository::new();
    assert_eq!(classes.create("a".to_string(), 1, 7), Ok(1));
    assert_eq!(classes.create("b".to_string(), 2, 7), Ok(2));
    assert_eq!(classes.create("a".to_string(), 3, 7), Err(StorageError::UniqueViolation));
    assert_eq!(classes.update_quantity(2, 9), Ok(class(2, 7, "b", 9)));
    assert_eq!(classes.update_quantity(3, 9), Err(StorageError::RowNotFound));
    assert_eq!(classes.get_user_class_by_id(2, 7), Some(class(2, 7, "b", 9)));
    assert_eq!(classes.get_user_class_by_id(2, 8), None);
    assert_eq!(classes.get_user_classes(7), vec![class(1, 7, "a", 1), class(2, 7, "b", 9)]);
    assert_eq!(classes.get_user_classes(8), vec![]);
}

#[test]
fn storage_errors_carry_the_engine_codes() {
    assert_eq!(StorageError::UniqueViolation.code(), Some("2067"));
    assert_eq!(StorageError::Exhausted.code(), Some("13"));
    assert_eq!(StorageError::RowNotFound.code(), None);
}

#[test]
fn tables_are_loaded_from_valid_rows_only() {
    let loaded = UserRepository::from_rows(vec![user(3, 1001), user(5, 1002)]).unwrap();
    assert_eq!(loaded.rows().len(), 2);
    let mut loaded = loaded;
    assert_eq!(loaded.create(1003, ""), Ok(6));
    assert!(UserRepository::from_rows(vec![]).is_some());
    assert!(UserRepository::from_rows(vec![user(5, 1001), user(3, 1002)]).is_none());
    assert!(UserRepository::from_rows(vec![user(3, 1001), user(5, 1001)]).is_none());
    assert!(UserRepository::from_rows(vec![user(0, 1001)]).is_none());
    assert!(UserRepository::from_rows(vec![user(i64::MAX, 1001)]).is_none());

    let mut classes =
        ClassRepository::from_rows(vec![class(2, 1, "a", 4), class(4, 2, "a", 5)]).unwrap();
    assert_eq!(classes.create("b".to_string(), 1, 1), Ok(5));
    assert!(ClassRepository::from_rows(vec![class(2, 1, "a", 4), class(4, 1, "a", 5)]).is_none());
    assert!(ClassRepository::from_rows(vec![class(4, 1, "a", 4), class(4, 1, "b", 5)]).is_none());
    assert!(ClassRepository::from_rows(vec![class(-1, 1, "a", 4)]).is_none());

    let row = |id: i64| ClassDeductionHistory {
        created_at: "2024-01-01 00:00:00".to_string(),
        class_deduction_history_id: id,
        class_id: 1,
        user_id: 1,
    };
    let mut histories = ClassDeductionHistoryRepository::from_rows(vec![row(1), row(9)]).unwrap();
    assert_eq!(histories.create(1, 1, "x".to_string()), Ok(10));
    assert!(ClassDeductionHistoryRepository::from_rows(vec![row(9), row(1)]).is_none());
    assert!(ClassDeductionHistoryRepository::from_rows(vec![row(2), row(2)]).is_none());
    assert!(ClassDeductionHistoryRepository::from_rows(vec![row(0), row(2)]).is_none());

    let entry = DailyPracticeLog { created_at: "x".to_string(), user_id: 1, minutes: 5 };
    let mut logs = DailyPracticeLogRepository::from_rows(vec![entry.clone(), entry]).unwrap();
    assert_eq!(logs.create(7, 1, "y".to_string()), Ok(3));
    assert_eq!(logs.get_all(1).len(), 3);
}

#[test]
fn snapshot_is_an_independent_copy() {
    let mut db = Database::new();
    db.users.create(1001, "alice").unwrap();
    let copy = db.snapshot();
    db.users.create(1002, "bob").unwrap();
    assert_eq!(copy.users.rows().len(), 1);
    assert_eq!(db.users.rows().len(), 2);
}

#[test]
fn transaction_reaches_the_store_only_by_commit() {
    let mut db = Database::new();
    {
        let mut uow = UnitOfWork::new_transactional(&db);
        assert_eq!(uow.user_repo_mut().create(1001, "alice"), Ok(1));
        assert!(uow.user_repo().exists_user(1001));
    }
    assert_eq!(db.users.rows().len(), 0);

    let mut uow = UnitOfWork::new_transactional(&db);
    uow.user_repo_mut().create(1001, "alice").unwrap();
    uow.class_repo_mut().create("Йога".to_string(), 5, 1).unwrap();
    uow.class_deduction_history_repo_mut().create(1, 1, "now".to_string()).unwrap();
    uow.daily_practice_log_repo_mut().create(30, 1, "now".to_string()).unwrap();
    uow.commit(&mut db);
    assert_eq!(db.users.rows().len(), 1);
    assert_eq!(db.classes.rows().len(), 1);
    assert_eq!(db.class_deduction_histories.rows().len(), 1);
    assert_eq!(db.daily_practice_logs.rows().len(), 1);
}

#[test]
fn read_only_unit_sees_the_store_and_leaves_it() {
    let mut db = Database::new();
    db.users.create(1001, "alice").unwrap();
    db.classes.create("Йога".to_string(), 5, 1).unwrap();
    let mut other = Database::new();
    {
        let uow = UnitOfWork::new_readonly(&db);
        assert!(uow.user_repo().exists_user(1001));
        assert_eq!(uow.class_repo().get_user_classes(1).len(), 1);
        assert_eq!(uow.class_deduction_history_repo().get_histories(1, 1).len(), 0);
        assert_eq!(uow.daily_practice_log_repo().get_all(1).len(), 0);
        uow.commit(&mut other);
    }
    assert_eq!(other.users.rows().len(), 0);
    assert_eq!(db.users.rows().len(), 1);
}

#[test]
fn dialogue_store_defaults_to_idle() {
    let mut storage = InMemStorage::new();
    assert_eq!(storage.get_dialogue(5), State::Idle);
    storage.update_dialogue(5, State::AddingClassReceiveQuantity { name: "Йога".to_string() });
    storage.update_dialogue(6, State::UpdatingClassReceiveQuantity { class_id: 3 });
    assert_eq!(
        storage.get_dialogue(5),
        State::AddingClassReceiveQuantity { name: "Йога".to_string() }
    );
    assert_eq!(storage.get_dialogue(6), State::UpdatingClassReceiveQuantity { class_id: 3 });
    storage.update_dialogue(5, State::AddingDailyPracticeReceiveMinutes);
    assert_eq!(storage.get_dialogue(5), State::AddingDailyPracticeReceiveMinutes);
    storage.remove_dialogue(5);
    assert_eq!(storage.get_dialogue(5), State::Idle);
    assert_eq!(storage.get_dialogue(6), State::UpdatingClassReceiveQuantity { class_id: 3 });
    storage.remove_dialogue(99);
    assert_eq!(State::default(), State::Idle);
}
