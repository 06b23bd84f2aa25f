use assistant_bot::action::{Action, Recipient};
use assistant_bot::middlewares::{counted_user, decide_admission, throttling_middleware, Admission};
use assistant_bot::rate_limiter::{RedisRateLimiter, UserRateLimit};
use assistant_bot::update::{CallbackQuery, Message, Update};
use assistant_bot::utils::get_user;

const SLOW_DOWN: &str = "Вы отправляете слишком много запросов. Подождите несколько секунд.";

fn text_from(user: u64, text: &str) -> Update {
    Update::Message(Message {
        chat_id: user as i64,
        from_id: Some(user),
        chat_username: None,
        text: Some(text.to_string()),
    })
}

fn tap_from(user: u64) -> Update {
    Update::CallbackQuery(CallbackQuery {
        id: "q-1".to_string(),
        from_id: user,
        chat_id: Some(user as i64),
        data: Some("deduct_class:1".to_string()),
        message: None,
    })
}

#[test]
fn key_names_namespace_user_and_interval() {
    let limiter = RedisRateLimiter::new(3, 10, "assistant-bot");
    assert_eq!(limiter.build_key(42), "assistant-bot:rate_limit:42:10");
    assert_eq!(limiter.build_key(0), "assistant-bot:rate_limit:0:10");
    let limiter = RedisRateLimiter::new(1, 3600, "");
    assert_eq!(limiter.build_key(u64::MAX), ":rate_limit:18446744073709551615:3600");
}

#[test]
fn only_the_first_request_opens_a_window() {
    let limiter = RedisRateLimiter::new(3, 10, "ns");
    assert_eq!(limiter.expire_after(1), Some(10));
    assert_eq!(limiter.expire_after(0), None);
    assert_eq!(limiter.expire_after(2), None);
    assert_eq!(limiter.expire_after(4), None);
    let limiter = RedisRateLimiter::new(3, u64::MAX, "ns");
    assert_eq!(limiter.expire_after(1), Some(10));
    let limiter = RedisRateLimiter::new(3, i64::MAX as u64, "ns");
    assert_eq!(limiter.expire_after(1), Some(i64::MAX));
}

#[test]
fn limit_three_lets_three_through_and_notifies_on_the_fourth() {
    let limiter = RedisRateLimiter::new(3, 10, "ns");
    let go = UserRateLimit { can_proceed_request: true, should_notify_user: false };
    assert_eq!(limiter.get_user_current_limit(1), go);
    assert_eq!(limiter.get_user_current_limit(2), go);
    assert_eq!(limiter.get_user_current_limit(3), go);
    assert_eq!(
        limiter.get_user_current_limit(4),
        UserRateLimit { can_proceed_request: false, should_notify_user: true }
    );
    assert_eq!(
        limiter.get_user_current_limit(5),
        UserRateLimit { can_proceed_request: false, should_notify_user: false }
    );
    assert_eq!(
        limiter.get_user_current_limit(u16::MAX),
        UserRateLimit { can_proceed_request: false, should_notify_user: false }
    );
}

#[test]
fn a_window_lets_at_most_the_limit_through() {
    for limit in [0u16, 1, 3, 10] {
        let limiter = RedisRateLimiter::new(limit, 10, "ns");
        let mut through = 0u32;
        let mut notices = 0u32;
        for count in 1..=50u16 {
            let verdict = limiter.get_user_current_limit(count);
            if verdict.can_proceed_request {
                through += 1;
            }
            if verdict.should_notify_user {
                notices += 1;
                assert_eq!(count, limit + 1);
            }
        }
        assert_eq!(through, limit as u32);
        assert_eq!(notices, 1);
    }
}

#[test]
fn the_largest_limit_never_notifies() {
    let limiter = RedisRateLimiter::new(u16::MAX, 10, "ns");
    assert_eq!(
        limiter.get_user_current_limit(u16::MAX),
        UserRateLimit { can_proceed_request: true, should_notify_user: false }
    );
}

#[test]
fn four_rapid_messages_then_a_fifth() {
    let limiter = RedisRateLimiter::new(3, 10, "assistant-bot");
    let update = text_from(1001, "Занятия");
    for count in 1..=3u16 {
        let admission = throttling_middleware(false, &update, &limiter, Some(count));
        assert_eq!(admission, Admission { proceed: true, notice: None });
    }
    let fourth = throttling_middleware(false, &update, &limiter, Some(4));
    assert!(!fourth.proceed);
    assert_eq!(
        fourth.notice,
        Some(Action::SendMessage {
            to: Recipient::User(1001),
            text: SLOW_DOWN.to_string(),
            reply_markup: None,
            html: false,
        })
    );
    let fifth = throttling_middleware(false, &update, &limiter, Some(5));
    assert_eq!(fifth, Admission { proceed: false, notice: None });
}

#[test]
fn a_tap_over_the_limit_gets_an_alert() {
    let limiter = RedisRateLimiter::new(3, 10, "assistant-bot");
    let admission = throttling_middleware(false, &tap_from(1001), &limiter, Some(4));
    assert!(!admission.proceed);
    assert_eq!(
        admission.notice,
        Some(Action::AnswerCallbackQuery {
            callback_query_id: "q-1".to_string(),
            notice: Some(SLOW_DOWN.to_string()),
            show_alert: true,
        })
    );
}

#[test]
fn an_unreachable_counter_lets_nothing_through() {
    let limiter = RedisRateLimiter::new(3, 10, "assistant-bot");
    let admission = throttling_middleware(false, &text_from(1001, "x"), &limiter, None);
    assert_eq!(admission, Admission { proceed: false, notice: None });
    assert_eq!(
        decide_admission(&text_from(1001, "x"), 1001, None),
        Admission { proceed: false, notice: None }
    );
}

#[test]
fn debug_and_senderless_updates_pass_uncounted() {
    let limiter = RedisRateLimiter::new(0, 10, "assistant-bot");
    let update = text_from(1001, "x");
    assert_eq!(counted_user(true, &update), None);
    assert_eq!(counted_user(false, &update), Some(1001));
    assert_eq!(
        throttling_middleware(true, &update, &limiter, Some(9)),
        Admission { proceed: true, notice: None }
    );
    assert_eq!(
        throttling_middleware(true, &update, &limiter, None),
        Admission { proceed: true, notice: None }
    );
    let anonymous = Update::Other { from_id: None };
    assert_eq!(counted_user(false, &anonymous), None);
    assert_eq!(
        throttling_middleware(false, &anonymous, &limiter, None),
        Admission { proceed: true, notice: None }
    );
}

#[test]
fn the_sender_is_found_in_every_kind_of_update() {
    assert_eq!(get_user(&text_from(7, "x")), Some(7));
    assert_eq!(get_user(&tap_from(8)), Some(8));
    assert_eq!(get_user(&Update::Other { from_id: Some(9) }), Some(9));
    assert_eq!(get_user(&Update::Other { from_id: None }), None);
    let channel_post = Update::Message(Message {
        chat_id: -100,
        from_id: None,
        chat_username: None,
        text: Some("x".to_string()),
    });
    assert_eq!(get_user(&channel_post), None);
}

#[test]
fn zero_limit_notifies_on_the_first_request() {
    let limiter = RedisRateLimiter::new(0, 10, "ns");
    assert_eq!(
        limiter.get_user_current_limit(1),
        UserRateLimit { can_proceed_request: false, should_notify_user: true }
    );
    assert_eq!(
        limiter.get_user_current_limit(0),
        UserRateLimit { can_proceed_request: true, should_notify_user: false }
    );
}
