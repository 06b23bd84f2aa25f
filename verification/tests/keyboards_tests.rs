use assistant_bot::keyboards::{
    into_rows, make_class_list_inline_keyboard, make_main_menu_keyboard,
    InlineKeyboardButton, MainMenuButton,
};
use assistant_bot::repositories::class::Class;

fn button(text: &str) -> MainMenuButton {
    MainMenuButton { text: text.to_string() }
}

fn labels(rows: &Vec<Vec<MainMenuButton>>) -> Vec<Vec<String>> {
    rows.iter().map(|row| row.iter().map(|b| b.text.clone()).collect()).collect()
}

#[test]
fn rows_are_cut_in_order() {
    assert_eq!(into_rows(vec![1, 2, 3, 4, 5], 2), vec![vec![1, 2], vec![3, 4], vec![5]]);
    assert_eq!(into_rows(vec![1, 2, 3, 4], 2), vec![vec![1, 2], vec![3, 4]]);
    assert_eq!(into_rows(vec![1, 2, 3], 5), vec![vec![1, 2, 3]]);
    assert_eq!(into_rows(vec![1, 2, 3], 1), vec![vec![1], vec![2], vec![3]]);
    assert_eq!(into_rows(vec![1, 2, 3], 3), vec![vec![1, 2, 3]]);
    assert_eq!(into_rows(Vec::<u8>::new(), 2), Vec::<Vec<u8>>::new());
}

#[test]
fn menu_keyboard_is_persistent_and_two_wide() {
    let keyboard = make_main_menu_keyboard(vec![button("a"), button("b"), button("c")], 2);
    assert!(keyboard.is_persistent);
    assert_eq!(labels(&keyboard.keyboard), vec![vec!["a", "b"], vec!["c"]]);
    let empty = make_main_menu_keyboard(vec![], 2);
    assert!(empty.is_persistent);
    assert!(empty.keyboard.is_empty());
}

#[test]
fn class_buttons_show_name_and_quantity_and_send_the_identifier() {
    let classes = vec![
        Class { name: "Йога".to_string(), class_id: 3, user_id: 1, quantity: 5 },
        Class { name: "Плавание".to_string(), class_id: 12, user_id: 1, quantity: 0 },
        Class { name: "".to_string(), class_id: -7, user_id: 1, quantity: 255 },
    ];
    let keyboard = make_class_list_inline_keyboard(classes, 2, "deduct_class:");
    assert_eq!(
        keyboard.inline_keyboard,
        vec![
            vec![
                InlineKeyboardButton {
                    text: "Йога (5)".to_string(),
                    callback_data: "deduct_class:3".to_string(),
                },
                InlineKeyboardButton {
                    text: "Плавание (0)".to_string(),
                    callback_data: "deduct_class:12".to_string(),
                },
            ],
            vec![InlineKeyboardButton {
                text: " (255)".to_string(),
                callback_data: "deduct_class:-7".to_string(),
            }],
        ]
    );
}

#[test]
fn a_class_is_shown_by_name_and_quantity() {
    let class = Class { name: "Йога".to_string(), class_id: 3, user_id: 1, quantity: 5 };
    assert_eq!(class.to_string(), "Йога (5)");
    assert_eq!(class.clone(), class);
}
