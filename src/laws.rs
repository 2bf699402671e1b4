//! What holds of a session over a whole run of pulls.
use vstd::prelude::*;

use crate::session::{
    Phase, close_drains, close_sends, is_terminal, phase_after_fetch, phase_after_pull,
    pull_sends_fetch,
};

verus! {

/// The rows that a cursor with `rest` rows left returns to a fetch of `b`.
pub open spec fn rows_served(rest: nat, b: nat) -> nat {
    if rest < b {
        rest
    } else {
        b
    }
}

/// The sizes of the batches that pulls hand out, one after another, from a
/// session whose cursor has `rest` rows left and which fetches `b` at a time.
/// Each fetch ends the sequence or hands its rows out as one batch, as
/// `CursorSession::finish_fetch` says.
pub open spec fn batch_sizes(rest: nat, b: nat) -> Seq<nat>
    decreases rest,
{
    let got = rows_served(rest, b);
    if phase_after_fetch(got) is Open && 0 < got <= rest {
        seq![got].add(batch_sizes((rest - got) as nat, b))
    } else {
        Seq::empty()
    }
}

/// The sum of a sequence of sizes.
pub open spec fn total(s: Seq<nat>) -> nat
    decreases s.len(),
{
    if s.len() == 0 {
        0
    } else {
        s[0] + total(s.drop_first())
    }
}

/// The phase after `k` pulls started in `p` with no fetch answered between them.
pub open spec fn phase_after_pulls(p: Phase, k: nat) -> Phase
    decreases k,
{
    if k == 0 {
        p
    } else {
        phase_after_pull(phase_after_pulls(p, (k - 1) as nat))
    }
}

/// Over a relation of `n` rows fetched `b` at a time, the pulls hand out
/// `ceil(n / b)` batches, none of them empty, whose sizes add up to `n`:
/// each is `b` rows but the last, which holds what is left.
pub proof fn lemma_batches_cover_relation(n: nat, b: nat)
    requires
        b >= 1,
    ensures
        ({
            let s = batch_sizes(n, b);
            let k = ((n + b - 1) as nat / b) as int;
            &&& s.len() == k
            &&& forall|i: int| 0 <= i < s.len() ==> s[i] > 0
            &&& forall|i: int| 0 <= i < k - 1 ==> s[i] == b
            &&& k > 0 ==> s[k - 1] == n - b * (k - 1)
            &&& total(s) == n
        }),
    decreases n,
{
    let s = batch_sizes(n, b);
    let k = ((n + b - 1) as nat / b) as int;
    if n == 0 {
        assert(s.len() == 0);
        assert((b - 1) as nat / b == 0) by (nonlinear_arith)
            requires
                b >= 1,
        ;
    } else if n <= b {
        let t = batch_sizes(0, b);
        assert(t.len() == 0);
        assert(s =~= seq![n]);
        assert(s.drop_first() =~= t);
        assert(total(t) == 0);
        assert(total(s) == n);
        assert(k == 1) by (nonlinear_arith)
            requires
                k == (n + b - 1) as nat / b,
                1 <= n <= b,
        ;
    } else {
        let rest = (n - b) as nat;
        let t = batch_sizes(rest, b);
        lemma_batches_cover_relation(rest, b);
        let j = ((rest + b - 1) as nat / b) as int;
        assert(s =~= seq![b].add(t));
        assert(s.drop_first() =~= t);
        assert(k == j + 1) by {
            vstd::arithmetic::div_mod::lemma_div_plus_one(n - 1, b as int);
            assert(rest + b - 1 == n - 1);
            assert(n + b - 1 == b + (n - 1));
        }
        assert(forall|i: int| 0 < i < s.len() ==> s[i] == t[i - 1]);
        assert(n - b * (k - 1) == rest - b * (j - 1)) by (nonlinear_arith)
            requires
                k == j + 1,
                rest == n - b,
        ;
        assert(total(s) == b + total(t));
        assert forall|i: int| 0 <= i < k - 1 implies s[i] == b by {
            if i > 0 {
                assert(s[i] == t[i - 1]);
            }
        }
        assert forall|i: int| 0 <= i < s.len() implies s[i] > 0 by {
            if i > 0 {
                assert(s[i] == t[i - 1]);
            }
        }
        assert(s.len() == k);
        assert(k > 0 ==> s[k - 1] == n - b * (k - 1));
    }
}

/// Once a pull has ended the sequence, every later pull ends it again without
/// a round trip: the phase that an empty fetch leaves, and any phase in which
/// a pull ends the sequence, is terminal, and pulls leave it as it is and send
/// no fetch.
pub proof fn lemma_end_is_fused(p: Phase, k: nat)
    requires
        p == phase_after_fetch(0) || is_terminal(p),
    ensures
        is_terminal(p),
        phase_after_pulls(p, k) == p,
        forall|i: nat| i <= k ==> !pull_sends_fetch(#[trigger] phase_after_pulls(p, i)),
    decreases k,
{
    if k > 0 {
        lemma_end_is_fused(p, (k - 1) as nat);
    }
}

/// Closing a session whose pulls have ended sends its `CLOSE` at once: no
/// fetch is outstanding there to wait for, and none is sent.
pub proof fn lemma_close_after_end(p: Phase)
    requires
        p == phase_after_fetch(0),
    ensures
        close_sends(p),
        !close_drains(p),
        !pull_sends_fetch(p),
{
}

} // verus!
