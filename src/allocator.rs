//! The round-robin cursor over the registered delegation contracts.
//!
//! The cursor is 1-based: position `p` stands for the `p`-th registered
//! contract, and 0 means that no contract has been handed out yet.

use vstd::prelude::*;

verus! {

/// The position handed out after `last` in a list of `n` contracts: the next
/// one, or the first once the end of the list is reached.
pub open spec fn next_cursor(last: nat, n: nat) -> nat {
    if last >= n {
        1
    } else {
        last + 1
    }
}

/// The position of the cursor after `k` steps from `start` in a list of `n`
/// contracts.
pub open spec fn cursor_after(start: nat, n: nat, k: nat) -> nat
    decreases k,
{
    if k == 0 {
        start
    } else {
        next_cursor(cursor_after(start, n, (k - 1) as nat), n)
    }
}

/// Where the `k`-th step from `start` lands, for `1 <= k <= n`: `start + k`,
/// counted round the end of the list.
pub open spec fn wrapped_position(start: nat, n: nat, k: nat) -> nat {
    if start + k <= n {
        start + k
    } else {
        (start + k - n) as nat
    }
}

/// The number of steps from `start` after which position `p` is handed out.
pub open spec fn steps_to(start: nat, n: nat, p: nat) -> nat {
    if p > start {
        (p - start) as nat
    } else {
        (p + n - start) as nat
    }
}

/// Stepping from the end of the list goes back to its first contract.
pub proof fn lemma_cursor_wraps_at_end(n: nat)
    requires
        n >= 1,
    ensures
        next_cursor(n, n) == 1,
{
}

/// Steps from a cursor at `start <= n` walk the list round: the `k`-th of
/// the first `n` steps lands on `start + k`, counted round the end of the
/// list, so each position is visited exactly once among them, and step
/// `n + 1` lands where step 1 did.
pub proof fn lemma_round_robin_cycle(start: nat, n: nat)
    requires
        n >= 1,
        start <= n,
    ensures
        forall|k: nat|
            1 <= k <= n ==> #[trigger] cursor_after(start, n, k) == wrapped_position(start, n, k),
        forall|k1: nat, k2: nat|
            1 <= k1 < k2 <= n ==> #[trigger] cursor_after(start, n, k1) != #[trigger] cursor_after(
                start,
                n,
                k2,
            ),
        forall|p: nat|
            1 <= p <= n ==> 1 <= #[trigger] steps_to(start, n, p) <= n && cursor_after(
                start,
                n,
                steps_to(start, n, p),
            ) == p,
        cursor_after(start, n, n + 1) == cursor_after(start, n, 1),
{
    assert forall|k: nat| 1 <= k <= n + 1 implies #[trigger] cursor_after(start, n, k)
        == if k == n + 1 { wrapped_position(start, n, 1) } else { wrapped_position(start, n, k) } by {
        lemma_cursor_after_closed_form(start, n, k);
    }
    assert forall|p: nat| 1 <= p <= n implies 1 <= #[trigger] steps_to(start, n, p) <= n
        && cursor_after(start, n, steps_to(start, n, p)) == p by {
        assert(cursor_after(start, n, steps_to(start, n, p)) == wrapped_position(
            start,
            n,
            steps_to(start, n, p),
        ));
    }
}

/// The closed form of the first `n + 1` steps.
proof fn lemma_cursor_after_closed_form(start: nat, n: nat, k: nat)
    requires
        n >= 1,
        start <= n,
        1 <= k <= n + 1,
    ensures
        cursor_after(start, n, k) == if k == n + 1 {
            wrapped_position(start, n, 1)
        } else {
            wrapped_position(start, n, k)
        },
    decreases k,
{
    assert(cursor_after(start, n, 0) == start);
    if k > 1 {
        lemma_cursor_after_closed_form(start, n, (k - 1) as nat);
    }
    assert(cursor_after(start, n, k) == next_cursor(cursor_after(start, n, (k - 1) as nat), n));
}

/// From a cursor at the start of the list (0, or `n` at its end), the first
/// `n` steps hand out the contracts in the order in which they were
/// registered, and step `n + 1` hands out the first one again.
pub proof fn lemma_round_robin_from_start(start: nat, n: nat)
    requires
        n >= 1,
        start == 0 || start == n,
    ensures
        forall|k: nat| 1 <= k <= n ==> #[trigger] cursor_after(start, n, k) == k,
        cursor_after(start, n, n + 1) == 1,
{
    lemma_round_robin_cycle(start, n);
}

} // verus!
