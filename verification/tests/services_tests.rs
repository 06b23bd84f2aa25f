use assistant_bot::database::Database;
use assistant_bot::errors::{
    ClassNotFoundError, DuplicateClassNameError, NotEnoughClassQuantityToChargeError,
    ServiceError, SomethingWentWrongError, UserNotFoundError,
};
use assistant_bot::repositories::class::{Class, ClassRepository};
use assistant_bot::repositories::class_deduction_history::{
    ClassDeductionHistory, ClassDeductionHistoryRepository,
};
use assistant_bot::repositories::storage::StorageError;
use assistant_bot::repositories::user::{User, UserRepository};
use assistant_bot::services::class::{
    add_class, add_class_deduction_history, classify_insert_failure, deduct_class,
    get_class_deduction_histories, get_classes_by_user_id, update_class_quantity,
};
use assistant_bot::services::daily_practice_log::{
    add_daily_practice_entry, get_daily_practice_log_history,
};
use assistant_bot::services::user::add_user;

const ALICE: i64 = 1001;
const BOB: i64 = 2002;
const NOW: &str = "2024-03-04 10:20:30";

fn with_alice() -> Database {
    let mut db = Database::new();
    assert_eq!(add_user(&mut db, ALICE, "alice"), Ok(()));
    db
}

#[test]
fn start_registers_a_user_once() {
    let mut db = Database::new();
    assert_eq!(db.users.rows().len(), 0);
    assert_eq!(add_user(&mut db, ALICE, "alice"), Ok(()));
    assert_eq!(db.users.rows().len(), 1);
    assert_eq!(add_user(&mut db, ALICE, "alice"), Ok(()));
    assert_eq!(db.users.rows().len(), 1);
    let row = &db.users.rows()[0];
    assert_eq!(row.telegram_id, ALICE);
    assert_eq!(row.user_id, 1);
    assert_eq!(row.username.as_deref(), Some("alice"));
}

#[test]
fn a_second_registration_keeps_the_first_name() {
    let mut db = with_alice();
    assert_eq!(add_user(&mut db, ALICE, "alice_renamed"), Ok(()));
    assert_eq!(db.users.rows().len(), 1);
    assert_eq!(db.users.rows()[0].username.as_deref(), Some("alice"));
}

#[test]
fn users_get_rising_identifiers() {
    let mut db = with_alice();
    assert_eq!(add_user(&mut db, BOB, ""), Ok(()));
    assert_eq!(db.users.rows().len(), 2);
    assert_eq!(db.users.rows()[1].user_id, 2);
    assert_eq!(db.users.rows()[1].username.as_deref(), Some(""));
    assert!(db.users.exists_user(BOB));
    assert!(!db.users.exists_user(3003));
}

#[test]
fn added_class_is_listed_with_its_name_and_quantity() {
    let mut db = with_alice();
    let id = add_class(&mut db, "Йога".to_string(), 5, ALICE).unwrap();
    assert_eq!(id, 1);
    let classes = get_classes_by_user_id(&db, ALICE).unwrap();
    assert_eq!(classes.len(), 1);
    assert_eq!(classes[0].name, "Йога");
    assert_eq!(classes[0].quantity, 5);
    assert_eq!(classes[0].class_id, 1);
    assert_eq!(classes[0].user_id, 1);
}

#[test]
fn classes_are_listed_in_insertion_order() {
    let mut db = with_alice();
    add_class(&mut db, "b".to_string(), 1, ALICE).unwrap();
    add_class(&mut db, "a".to_string(), 2, ALICE).unwrap();
    add_class(&mut db, "c".to_string(), 3, ALICE).unwrap();
    let names: Vec<String> =
        get_classes_by_user_id(&db, ALICE).unwrap().into_iter().map(|c| c.name).collect();
    assert_eq!(names, vec!["b", "a", "c"]);
}

#[test]
fn services_do_not_create_users() {
    let mut db = Database::new();
    let missing = ServiceError::UserNotFound(UserNotFoundError);
    assert_eq!(add_class(&mut db, "Йога".to_string(), 5, ALICE), Err(missing));
    assert_eq!(deduct_class(&mut db, 1, ALICE), Err(missing));
    assert_eq!(update_class_quantity(&mut db, 1, ALICE, 3), Err(missing));
    assert_eq!(add_class_deduction_history(&mut db, 1, ALICE, NOW.to_string()), Err(missing));
    assert_eq!(add_daily_practice_entry(&mut db, 30, ALICE, NOW.to_string()), Err(missing));
    assert_eq!(get_classes_by_user_id(&db, ALICE), Err(missing));
    assert_eq!(get_class_deduction_histories(&db, 1, ALICE), Err(missing));
    assert_eq!(get_daily_practice_log_history(&db, ALICE), Err(missing));
    assert_eq!(db.users.rows().len(), 0);
    assert_eq!(db.classes.rows().len(), 0);
}

#[test]
fn a_name_is_unique_per_user_only() {
    let mut db = with_alice();
    add_user(&mut db, BOB, "bob").unwrap();
    assert_eq!(add_class(&mut db, "Йога".to_string(), 5, ALICE), Ok(1));
    assert_eq!(
        add_class(&mut db, "Йога".to_string(), 9, ALICE),
        Err(ServiceError::DuplicateClassName(DuplicateClassNameError))
    );
    assert_eq!(add_class(&mut db, "Йога".to_string(), 7, BOB), Ok(2));
    assert_eq!(add_class(&mut db, "йога".to_string(), 1, ALICE), Ok(3));
    assert_eq!(db.classes.rows().len(), 3);
    assert_eq!(get_classes_by_user_id(&db, ALICE).unwrap()[0].quantity, 5);
}

#[test]
fn storage_codes_are_classified() {
    let duplicate = ServiceError::DuplicateClassName(DuplicateClassNameError);
    let other = ServiceError::SomethingWentWrong(SomethingWentWrongError);
    assert_eq!(classify_insert_failure(Some("2067")), duplicate);
    assert_eq!(classify_insert_failure(Some("1555")), duplicate);
    assert_eq!(classify_insert_failure(Some("13")), other);
    assert_eq!(classify_insert_failure(Some("")), other);
    assert_eq!(classify_insert_failure(Some("20670")), other);
    assert_eq!(classify_insert_failure(None), other);
}

#[test]
fn deduction_takes_one_and_history_gains_one() {
    let mut db = with_alice();
    let id = add_class(&mut db, "Йога".to_string(), 5, ALICE).unwrap();
    let class = deduct_class(&mut db, id, ALICE).unwrap();
    assert_eq!(class.quantity, 4);
    assert_eq!(class.name, "Йога");
    assert_eq!(class.class_id, id);
    assert_eq!(get_classes_by_user_id(&db, ALICE).unwrap()[0].quantity, 4);
    assert_eq!(get_class_deduction_histories(&db, id, ALICE).unwrap().len(), 0);
    assert_eq!(add_class_deduction_history(&mut db, id, ALICE, NOW.to_string()), Ok(()));
    let histories = get_class_deduction_histories(&db, id, ALICE).unwrap();
    assert_eq!(histories.len(), 1);
    assert_eq!(histories[0].class_id, id);
    assert_eq!(histories[0].user_id, 1);
    assert_eq!(histories[0].class_deduction_history_id, 1);
    assert_eq!(histories[0].created_at, NOW);
}

#[test]
fn sixth_deduction_of_five_is_refused() {
    let mut db = with_alice();
    let id = add_class(&mut db, "Йога".to_string(), 5, ALICE).unwrap();
    for left in [4u8, 3, 2, 1, 0] {
        assert_eq!(deduct_class(&mut db, id, ALICE).unwrap().quantity, left);
        add_class_deduction_history(&mut db, id, ALICE, NOW.to_string()).unwrap();
    }
    assert_eq!(
        deduct_class(&mut db, id, ALICE),
        Err(ServiceError::NotEnoughClassQuantityToDeduct(NotEnoughClassQuantityToChargeError(0)))
    );
    assert_eq!(get_classes_by_user_id(&db, ALICE).unwrap()[0].quantity, 0);
    assert_eq!(get_class_deduction_histories(&db, id, ALICE).unwrap().len(), 5);
}

#[test]
fn deduction_leaves_other_classes_alone() {
    let mut db = with_alice();
    let yoga = add_class(&mut db, "Йога".to_string(), 5, ALICE).unwrap();
    let swim = add_class(&mut db, "Плавание".to_string(), 8, ALICE).unwrap();
    deduct_class(&mut db, swim, ALICE).unwrap();
    let classes = get_classes_by_user_id(&db, ALICE).unwrap();
    assert_eq!(classes[0].class_id, yoga);
    assert_eq!(classes[0].quantity, 5);
    assert_eq!(classes[1].class_id, swim);
    assert_eq!(classes[1].quantity, 7);
}

#[test]
fn update_sets_the_quantity_and_adds_no_history() {
    let mut db = with_alice();
    let id = add_class(&mut db, "Йога".to_string(), 5, ALICE).unwrap();
    let class = update_class_quantity(&mut db, id, ALICE, 10).unwrap();
    assert_eq!(class.quantity, 10);
    assert_eq!(class.name, "Йога");
    assert_eq!(get_classes_by_user_id(&db, ALICE).unwrap()[0].quantity, 10);
    assert_eq!(db.class_deduction_histories.rows().len(), 0);
}

#[test]
fn update_has_no_lower_bound() {
    let mut db = with_alice();
    let id = add_class(&mut db, "Йога".to_string(), 5, ALICE).unwrap();
    assert_eq!(update_class_quantity(&mut db, id, ALICE, 0).unwrap().quantity, 0);
    assert_eq!(update_class_quantity(&mut db, id, ALICE, 255).unwrap().quantity, 255);
}

#[test]
fn a_class_of_another_user_is_not_found() {
    let mut db = with_alice();
    add_user(&mut db, BOB, "bob").unwrap();
    let id = add_class(&mut db, "Йога".to_string(), 5, ALICE).unwrap();
    let missing = ServiceError::ClassNotFound(ClassNotFoundError);
    assert_eq!(deduct_class(&mut db, id, BOB), Err(missing));
    assert_eq!(update_class_quantity(&mut db, id, BOB, 1), Err(missing));
    assert_eq!(deduct_class(&mut db, 99, ALICE), Err(missing));
    assert_eq!(update_class_quantity(&mut db, 99, ALICE, 1), Err(missing));
    assert_eq!(get_classes_by_user_id(&db, BOB).unwrap().len(), 0);
    assert_eq!(get_classes_by_user_id(&db, ALICE).unwrap()[0].quantity, 5);
}

#[test]
fn histories_are_scoped_to_class_and_user() {
    let mut db = with_alice();
    add_user(&mut db, BOB, "bob").unwrap();
    let yoga = add_class(&mut db, "Йога".to_string(), 5, ALICE).unwrap();
    let swim = add_class(&mut db, "Плавание".to_string(), 5, ALICE).unwrap();
    add_class_deduction_history(&mut db, yoga, ALICE, "2024-01-01 00:00:00".to_string()).unwrap();
    add_class_deduction_history(&mut db, swim, ALICE, "2024-01-02 00:00:00".to_string()).unwrap();
    add_class_deduction_history(&mut db, yoga, ALICE, "2024-01-03 00:00:00".to_string()).unwrap();
    let histories = get_class_deduction_histories(&db, yoga, ALICE).unwrap();
    let dates: Vec<&str> = histories.iter().map(|h| h.created_at.as_str()).collect();
    assert_eq!(dates, vec!["2024-01-01 00:00:00", "2024-01-03 00:00:00"]);
    assert_eq!(get_class_deduction_histories(&db, yoga, BOB).unwrap().len(), 0);
    assert_eq!(get_class_deduction_histories(&db, 77, ALICE).unwrap().len(), 0);
}

#[test]
fn logged_minutes_are_in_the_history() {
    let mut db = with_alice();
    assert_eq!(add_daily_practice_entry(&mut db, 45, ALICE, NOW.to_string()), Ok(1));
    assert_eq!(add_daily_practice_entry(&mut db, 0, ALICE, NOW.to_string()), Ok(2));
    assert_eq!(add_daily_practice_entry(&mut db, 65535, ALICE, NOW.to_string()), Ok(3));
    let logs = get_daily_practice_log_history(&db, ALICE).unwrap();
    let minutes: Vec<u16> = logs.iter().map(|l| l.minutes).collect();
    assert_eq!(minutes, vec![45, 0, 65535]);
    assert_eq!(logs[0].user_id, 1);
    assert_eq!(logs[0].created_at, NOW);
}

#[test]
fn practice_history_is_scoped_to_the_user() {
    let mut db = with_alice();
    add_user(&mut db, BOB, "bob").unwrap();
    add_daily_practice_entry(&mut db, 10, ALICE, NOW.to_string()).unwrap();
    add_daily_practice_entry(&mut db, 20, BOB, NOW.to_string()).unwrap();
    add_daily_practice_entry(&mut db, 30, ALICE, NOW.to_string()).unwrap();
    let alice: Vec<u16> =
        get_daily_practice_log_history(&db, ALICE).unwrap().iter().map(|l| l.minutes).collect();
    let bob: Vec<u16> =
        get_daily_practice_log_history(&db, BOB).unwrap().iter().map(|l| l.minutes).collect();
    assert_eq!(alice, vec![10, 30]);
    assert_eq!(bob, vec![20]);
}

#[test]
fn empty_results_are_no_error() {
    let db = with_alice();
    assert_eq!(get_classes_by_user_id(&db, ALICE), Ok(vec![]));
    assert_eq!(get_class_deduction_histories(&db, 1, ALICE), Ok(vec![]));
    assert_eq!(get_daily_practice_log_history(&db, ALICE), Ok(vec![]));
}

#[test]
fn errors_speak_to_the_user() {
    assert_eq!(
        ServiceError::SomethingWentWrong(SomethingWentWrongError).to_string(),
        "Произошла непредвиденная ошибка"
    );
    assert_eq!(
        ServiceError::UserNotFound(UserNotFoundError).to_string(),
        "Не удалось найти пользователя"
    );
    assert_eq!(
        ServiceError::ClassNotFound(ClassNotFoundError).to_string(),
        "Не удалось найти занятие"
    );
    assert_eq!(
        ServiceError::NotEnoughClassQuantityToDeduct(NotEnoughClassQuantityToChargeError(0))
            .to_string(),
        "Не удалось списать занятие. Количество доступных занятий 0"
    );
    assert_eq!(
        NotEnoughClassQuantityToChargeError(17).to_string(),
        "Не удалось списать занятие. Количество доступных занятий 17"
    );
    assert_eq!(
        ServiceError::DuplicateClassName(DuplicateClassNameError).to_string(),
        "Занятие с таким именем же существует. Пожалуйста, выберите другое имя."
    );
    assert_eq!(SomethingWentWrongError.to_string(), "Произошла непредвиденная ошибка");
    assert_eq!(UserNotFoundError.to_string(), "Не удалось найти пользователя");
    assert_eq!(ClassNotFoundError.to_string(), "Не удалось найти занятие");
}

#[test]
fn an_exhausted_table_is_an_unclassified_failure() {
    let last = i64::MAX - 1;
    let failure = ServiceError::SomethingWentWrong(SomethingWentWrongError);
    let mut db = with_alice();
    db.classes = ClassRepository::from_rows(vec![Class {
        name: "Йога".to_string(),
        class_id: last,
        user_id: 1,
        quantity: 5,
    }])
    .unwrap();
    db.class_deduction_histories =
        ClassDeductionHistoryRepository::from_rows(vec![ClassDeductionHistory {
            created_at: NOW.to_string(),
            class_deduction_history_id: last,
            class_id: last,
            user_id: 1,
        }])
        .unwrap();
    assert_eq!(add_class(&mut db, "Плавание".to_string(), 1, ALICE), Err(failure));
    assert_eq!(
        add_class(&mut db, "Йога".to_string(), 1, ALICE),
        Err(ServiceError::DuplicateClassName(DuplicateClassNameError))
    );
    assert_eq!(add_class_deduction_history(&mut db, last, ALICE, NOW.to_string()), Err(failure));
    assert_eq!(db.classes.rows().len(), 1);
    assert_eq!(db.class_deduction_histories.rows().len(), 1);
    assert_eq!(deduct_class(&mut db, last, ALICE).unwrap().quantity, 4);

    let mut full = Database::new();
    full.users =
        UserRepository::from_rows(vec![User { username: None, user_id: last, telegram_id: ALICE }])
            .unwrap();
    assert_eq!(add_user(&mut full, BOB, "bob"), Err(failure));
    assert_eq!(add_user(&mut full, ALICE, "alice"), Ok(()));
    assert_eq!(full.users.rows().len(), 1);
    assert_eq!(full.users.create(BOB, "bob"), Err(StorageError::Exhausted));
}
