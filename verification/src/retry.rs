//! Back-off between retries: of the Telegram update stream and of media transfers.
use vstd::prelude::*;

verus! {

/// The first back-off step, in milliseconds.
pub const BASE_DELAY_MS: u64 = 250;

/// The longest wait between two attempts to resume the update stream, in milliseconds.
pub const UPDATE_DELAY_CAP_MS: u64 = 15_000;

/// The longest wait between two attempts of a media transfer, in milliseconds.
pub const TRANSFER_DELAY_CAP_MS: u64 = 8_000;

/// How many times a media transfer is attempted in all.
pub const TRANSFER_ATTEMPTS: u32 = 4;

/// `2` to the power `n`.
pub open spec fn two_pow(n: nat) -> nat
    decreases n,
{
    if n == 0 {
        1
    } else {
        2 * two_pow((n - 1) as nat)
    }
}

/// The wait after the `step`-th failure: 250 ms doubled per failure up to the fifth,
/// and never more than `cap`.
pub open spec fn backoff(step: nat, cap: nat) -> nat {
    let doubled: nat = (BASE_DELAY_MS as nat) * two_pow(if step < 5 {
        step
    } else {
        5
    });
    if doubled < cap {
        doubled
    } else {
        cap
    }
}

proof fn lemma_two_pow_monotone(a: nat, b: nat)
    requires
        a <= b,
    ensures
        1 <= two_pow(a) <= two_pow(b),
    decreases b,
{
    if b > 0 {
        if a < b {
            lemma_two_pow_monotone(a, (b - 1) as nat);
        } else {
            lemma_two_pow_monotone((a - 1) as nat, (b - 1) as nat);
        }
    }
}

/// The back-off for `step` failures, capped at `cap` milliseconds.
pub fn backoff_ms(step: u32, cap: u64) -> (res: u64)
    ensures
        res == backoff(step as nat, cap as nat),
{
    let n: u32 = if step < 5 {
        step
    } else {
        5
    };
    let mut doubled: u64 = BASE_DELAY_MS;
    let mut i: u32 = 0;
    while i < n
        invariant
            i <= n <= 5,
            doubled == BASE_DELAY_MS * two_pow(i as nat),
            two_pow(i as nat) <= 32,
        decreases n - i,
    {
        proof {
            lemma_two_pow_monotone((i + 1) as nat, 5);
            reveal_with_fuel(two_pow, 6);
        }
        doubled = doubled * 2;
        i += 1;
    }
    if doubled < cap {
        doubled
    } else {
        cap
    }
}

/// What to do after the `attempt`-th failed attempt of a media transfer (attempts count
/// from 1): wait the returned number of milliseconds and try again, or give up (`None`).
pub fn transfer_retry(attempt: u32) -> (res: Option<u64>)
    ensures
        res == if attempt < TRANSFER_ATTEMPTS {
            Some(backoff(attempt as nat, TRANSFER_DELAY_CAP_MS as nat) as u64)
        } else {
            None::<u64>
        },
{
    if attempt < TRANSFER_ATTEMPTS {
        Some(backoff_ms(attempt, TRANSFER_DELAY_CAP_MS))
    } else {
        None
    }
}

/// Waits only grow as failures accumulate, and never pass the cap.
pub proof fn lemma_backoff_grows_to_cap(a: nat, b: nat, cap: nat)
    requires
        a <= b,
    ensures
        backoff(a, cap) <= backoff(b, cap),
        backoff(b, cap) <= cap,
{
    let ea: nat = if a < 5 {
        a
    } else {
        5
    };
    let eb: nat = if b < 5 {
        b
    } else {
        5
    };
    lemma_two_pow_monotone(ea, eb);
}

/// The waits between the four attempts of a media transfer are 500, 1000 and 2000
/// milliseconds.
pub proof fn lemma_transfer_waits()
    ensures
        backoff(1, TRANSFER_DELAY_CAP_MS as nat) == 500,
        backoff(2, TRANSFER_DELAY_CAP_MS as nat) == 1000,
        backoff(3, TRANSFER_DELAY_CAP_MS as nat) == 2000,
{
    reveal_with_fuel(two_pow, 4);
}

/// The first wait is 250 ms (or the cap), each further failure doubles the wait until the
/// cap is reached, and from the fifth failure on the wait no longer grows.
pub proof fn lemma_backoff_doubles(n: nat, cap: nat)
    ensures
        backoff(0, cap) == if 250 < cap {
            250
        } else {
            cap
        },
        n < 5 && 2 * backoff(n, cap) < cap ==> backoff(n + 1, cap) == 2 * backoff(n, cap),
        n < 5 ==> backoff(n, cap) <= backoff(n + 1, cap) <= 2 * backoff(n, cap) || backoff(
            n,
            cap,
        ) == cap,
        n >= 5 ==> backoff(n, cap) == backoff(5, cap),
        backoff(n, cap) <= cap,
{
    reveal_with_fuel(two_pow, 2);
    if n < 5 {
        assert(two_pow(n + 1) == 2 * two_pow(n));
        lemma_two_pow_monotone(n, n + 1);
    }
}

} // verus!
