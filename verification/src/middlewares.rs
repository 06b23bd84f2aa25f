use crate::action::{Action, ActionView, Recipient};
use crate::rate_limiter::{verdict, RedisRateLimiter, UserRateLimit};
use crate::update::Update;
use vstd::prelude::*;

verus! {

/// What the limiter tells a user who is over the limit.
pub open spec fn throttle_text() -> Seq<char> {
    "Вы отправляете слишком много запросов. Подождите несколько секунд."@
}

/// Whether an update goes on to its handler, and what its sender is told
/// if it does not.
#[derive(Debug, PartialEq, Eq)]
pub struct Admission {
    pub proceed: bool,
    pub notice: Option<Action>,
}

impl View for Admission {
    type V = (bool, Option<ActionView>);

    open spec fn view(&self) -> (bool, Option<ActionView>) {
        (
            self.proceed,
            match self.notice {
                Some(action) => Some(action@),
                None => None,
            },
        )
    }
}

/// How the user `user_id` is told to slow down: by an alert on the button
/// for a tap, by a message in every other case.
pub open spec fn throttle_notice(update: Update, user_id: u64) -> ActionView {
    match update {
        Update::CallbackQuery(q) => ActionView::AnswerCallbackQuery {
            callback_query_id: q.id@,
            notice: Some(throttle_text()),
            show_alert: true,
        },
        _ => ActionView::SendMessage {
            to: Recipient::User(user_id),
            text: throttle_text(),
            reply_markup: None,
            html: false,
        },
    }
}

/// The admission of an update of `user_id` from what the limiter said of
/// it; `None` stands for a limiter that could not be asked, which lets
/// nothing through.
pub open spec fn admission(update: Update, user_id: u64, limit: Option<UserRateLimit>) -> (
    bool,
    Option<ActionView>,
) {
    match limit {
        None => (false, None),
        Some(limit) => (
            limit.can_proceed_request,
            if limit.should_notify_user {
                Some(throttle_notice(update, user_id))
            } else {
                None
            },
        ),
    }
}

/// Decides on an update of `user_id` from what the limiter said of it.
pub fn decide_admission(update: &Update, user_id: u64, limit: Option<UserRateLimit>) -> (r: Admission)
    ensures
        r@ == admission(*update, user_id, limit),
{
    match limit {
        None => Admission { proceed: false, notice: None },
        Some(limit) => {
            let notice = if limit.should_notify_user {
                let text = "Вы отправляете слишком много запросов. Подождите несколько секунд.".to_owned();
                Some(
                    match update {
                        Update::CallbackQuery(q) => Action::AnswerCallbackQuery {
                            callback_query_id: q.id.clone(),
                            notice: Some(text),
                            show_alert: true,
                        },
                        _ => Action::SendMessage {
                            to: Recipient::User(user_id),
                            text,
                            reply_markup: None,
                            html: false,
                        },
                    },
                )
            } else {
                None
            };
            Admission { proceed: limit.can_proceed_request, notice }
        },
    }
}

/// What the rate limit makes of an update: with the limit switched off, or
/// without a sender, the update goes through uncounted; otherwise its
/// admission follows from the counter of its sender, where `None` stands
/// for a counter that could not be read.
pub open spec fn rate_limit_spec(
    debug: bool,
    update: Update,
    limit: u16,
    requests_count: Option<u16>,
) -> (bool, Option<ActionView>) {
    if debug {
        (true, None)
    } else {
        match update.sender() {
            None => (true, None),
            Some(user_id) => admission(
                update,
                user_id,
                match requests_count {
                    Some(count) => Some(verdict(count as nat, limit as nat)),
                    None => None,
                },
            ),
        }
    }
}

/// The user whose counter an update raises: its sender, unless the limit
/// is switched off.
pub fn counted_user(debug: bool, update: &Update) -> (user: Option<u64>)
    ensures
        user == if debug {
            None
        } else {
            update.sender()
        },
{
    if debug {
        None
    } else {
        crate::utils::get_user(update)
    }
}

/// Applies the rate limit to an update; `requests_count` is what the
/// counter of its sender was raised to, or `None` where it could not be
/// raised or read.
pub fn throttling_middleware(
    debug: bool,
    update: &Update,
    limiter: &RedisRateLimiter,
    requests_count: Option<u16>,
) -> (r: Admission)
    ensures
        r@ == rate_limit_spec(debug, *update, limiter.limit(), requests_count),
{
    let user_id = match counted_user(debug, update) {
        Some(user_id) => user_id,
        None => {
            return Admission { proceed: true, notice: None };
        },
    };
    let limit = match requests_count {
        Some(count) => Some(limiter.get_user_current_limit(count)),
        None => None,
    };
    decide_admission(update, user_id, limit)
}

} // verus!
