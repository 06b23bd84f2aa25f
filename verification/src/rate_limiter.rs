use crate::text::{decimal_digits, push_decimal};
use vstd::prelude::*;

verus! {

/// What the limiter says of one request.
#[derive(Clone, Copy, Debug, PartialEq, Eq, Structural)]
pub struct UserRateLimit {
    /// The request may go on to its handler.
    pub can_proceed_request: bool,
    /// The user is to be told, once, to slow down.
    pub should_notify_user: bool,
}

/// The verdict on the request that raised the window's counter to `count`,
/// under a limit of `limit` requests per window.
pub open spec fn verdict(count: nat, limit: nat) -> UserRateLimit {
    UserRateLimit { can_proceed_request: count <= limit, should_notify_user: count == limit + 1 }
}

/// The key under which the requests of `user_id` are counted.
pub open spec fn rate_limit_key(namespace: Seq<char>, user_id: u64, interval_secs: u64) -> Seq<
    char,
> {
    namespace + ":rate_limit:"@ + decimal_digits(user_id as nat) + ":"@ + decimal_digits(
        interval_secs as nat,
    )
}

/// How long a window's counter lives, in seconds: the interval, or 10 where
/// the interval is more than the store can take.
pub open spec fn window_seconds(interval_secs: u64) -> i64 {
    if interval_secs <= i64::MAX {
        interval_secs as i64
    } else {
        10
    }
}

/// How many of the first `n` requests of one window are let through.
pub open spec fn admitted(limit: nat, n: nat) -> nat
    decreases n,
{
    if n == 0 {
        0
    } else {
        admitted(limit, (n - 1) as nat) + if verdict(n, limit).can_proceed_request {
            1nat
        } else {
            0nat
        }
    }
}

/// How many of the first `n` requests of one window make the user hear of
/// the limit.
pub open spec fn notified(limit: nat, n: nat) -> nat
    decreases n,
{
    if n == 0 {
        0
    } else {
        notified(limit, (n - 1) as nat) + if verdict(n, limit).should_notify_user {
            1nat
        } else {
            0nat
        }
    }
}

/// Within one window, where the store counts the requests 1, 2, 3, ..., at
/// most `limit` requests are let through: the first `limit` of them. The
/// user hears of the limit once, on request `limit + 1`, and never again.
pub proof fn lemma_window(limit: nat, n: nat)
    ensures
        admitted(limit, n) == if n <= limit {
            n
        } else {
            limit
        },
        admitted(limit, n) <= limit,
        notified(limit, n) == if n > limit {
            1nat
        } else {
            0nat
        },
        forall|k: nat| verdict(k, limit).should_notify_user <==> k == limit + 1,
        forall|k: nat| verdict(k, limit).can_proceed_request <==> k <= limit,
    decreases n,
{
    if n > 0 {
        lemma_window(limit, (n - 1) as nat);
    }
}

/// A fixed-window limiter for the requests of single users. The counters
/// live in a key-value store with expiry; this type holds the rule.
#[derive(Debug, PartialEq, Eq)]
pub struct RedisRateLimiter {
    namespace: String,
    interval_secs: u64,
    limit: u16,
}

impl RedisRateLimiter {
    /// The prefix of every key of this limiter.
    pub closed spec fn namespace(&self) -> Seq<char> {
        self.namespace@
    }

    /// The length of a window, in seconds.
    pub closed spec fn interval_secs(&self) -> u64 {
        self.interval_secs
    }

    /// How many requests a window lets through.
    pub closed spec fn limit(&self) -> u16 {
        self.limit
    }

    /// A limiter that lets `limit` requests through per window of
    /// `interval_secs` seconds.
    pub fn new(limit: u16, interval_secs: u64, namespace: &str) -> (r: Self)
        ensures
            r.limit() == limit,
            r.interval_secs() == interval_secs,
            r.namespace() == namespace@,
    {
        RedisRateLimiter { namespace: namespace.to_owned(), interval_secs, limit }
    }

    /// The key under which the requests of `user_id` are counted.
    pub fn build_key(&self, user_id: u64) -> (key: String)
        ensures
            key@ == rate_limit_key(self.namespace(), user_id, self.interval_secs()),
    {
        let mut key = self.namespace.clone();
        key.append(":rate_limit:");
        push_decimal(&mut key, user_id);
        key.append(":");
        push_decimal(&mut key, self.interval_secs);
        key
    }

    /// The lifetime to give the counter when a request opens a window: the
    /// request that raised the counter to 1. No other request sets it.
    pub fn expire_after(&self, requests_count: u16) -> (seconds: Option<i64>)
        ensures
            seconds == if requests_count == 1 {
                Some(window_seconds(self.interval_secs()))
            } else {
                None
            },
    {
        if requests_count == 1 {
            if self.interval_secs <= 0x7fff_ffff_ffff_ffff {
                Some(self.interval_secs as i64)
            } else {
                Some(10)
            }
        } else {
            None
        }
    }

    /// The verdict on the request that raised the user's counter to
    /// `requests_count`.
    pub fn get_user_current_limit(&self, requests_count: u16) -> (r: UserRateLimit)
        ensures
            r == verdict(requests_count as nat, self.limit() as nat),
    {
        UserRateLimit {
            can_proceed_request: requests_count <= self.limit,
            should_notify_user: requests_count as u32 == self.limit as u32 + 1,
        }
    }
}

} // verus!
