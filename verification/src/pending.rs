//! The pending-table discipline shared by both adapters, and its laws.
//!
//! An adapter's whole state is one finite map from connection tokens to
//! suspended handshakes. Every operation either leaves the map alone, stores
//! or replaces the one entry for the stimulated token ([`pending_added`]), or
//! removes it ([`pending_cleared`]). The proof functions below state the
//! lifecycle laws that follow: an entry is unique per token, terminal outcomes
//! leave nothing behind, and a run of suspensions ended by a completion
//! returns the table to exactly its initial state.

use vstd::prelude::*;

verus! {

/// The step a table takes when a negotiation attempt came back incomplete:
/// a pending entry for `t` (and only for `t`) was stored or replaced.
pub open spec fn pending_added<K, V>(pre: Map<K, V>, post: Map<K, V>, t: K) -> bool {
    exists|m: V| post == #[trigger] pre.insert(t, m)
}

/// The step a table takes on a terminal outcome for `t`: the pending entry for
/// `t`, if there was one, was removed, and nothing else changed.
pub open spec fn pending_cleared<K, V>(pre: Map<K, V>, post: Map<K, V>, t: K) -> bool {
    post == pre.remove(t)
}

/// At most one pending handshake exists per token: the table is a map, so the
/// entry it holds for `t`, if any, is exactly the one at `t` — the rest of the
/// table holds none, and putting that one entry back restores the whole table.
pub proof fn lemma_at_most_one_pending<K, V>(m: Map<K, V>, t: K)
    ensures
        !m.remove(t).contains_key(t),
        m.contains_key(t) ==> m == m.remove(t).insert(t, m[t]),
{
    if m.contains_key(t) {
        assert(m =~= m.remove(t).insert(t, m[t]));
    }
}

/// After a terminal outcome for `t` — the entry cleared by `Ready` or
/// `Failed`, or a submission that never stored one — no pending entry remains
/// for `t`, so a later lookup of `t` finds nothing and passes the stimulus on.
pub proof fn lemma_cleanup_on_terminal<K, V>(pre: Map<K, V>, post: Map<K, V>, t: K)
    requires
        pending_cleared(pre, post, t) || (post == pre && !pre.contains_key(t)),
    ensures
        !post.contains_key(t),
{
}

/// Along a run of suspensions for `t` that started from a table without `t`,
/// removing `t` gives back exactly the starting table, and from the first
/// suspension on the entry for `t` is there.
proof fn lemma_rounds_leave_rest<K, V>(states: Seq<Map<K, V>>, t: K, i: int)
    requires
        !states[0].contains_key(t),
        forall|j: int| 0 <= j < states.len() - 1 ==> pending_added(states[j], #[trigger] states[j + 1], t),
        0 <= i < states.len(),
    ensures
        states[i].remove(t) == states[0],
        i >= 1 ==> states[i].contains_key(t),
    decreases i,
{
    if i == 0 {
        assert(states[0].remove(t) =~= states[0]);
    } else {
        lemma_rounds_leave_rest(states, t, i - 1);
        assert(pending_added(states[i - 1], states[(i - 1) + 1], t));
        let m = choose|m: V| states[i] == #[trigger] states[i - 1].insert(t, m);
        assert(states[i].remove(t) =~= states[i - 1].remove(t));
    }
}

/// N-round resumption. `states` are the tables seen at each step of one
/// connection's handshake: `states[0]` before its submission, then one state
/// per attempt that came back incomplete — the submission and every resumption
/// but the last ([`pending_added`] holds between neighbours) — and `done` the
/// table after the last resumption ended the negotiation (`Ready` or
/// `Failed`, [`pending_cleared`]). Then the token stays pending through every
/// intermediate state, and the terminal outcome returns the table to exactly
/// its state before the submission, with nothing pending for the token.
pub proof fn lemma_n_round_resumption<K, V>(states: Seq<Map<K, V>>, done: Map<K, V>, t: K)
    requires
        states.len() >= 2,
        !states[0].contains_key(t),
        forall|j: int| 0 <= j < states.len() - 1 ==> pending_added(states[j], #[trigger] states[j + 1], t),
        pending_cleared(states[states.len() - 1], done, t),
    ensures
        forall|i: int| 1 <= i < states.len() ==> #[trigger] states[i].contains_key(t),
        done == states[0],
        !done.contains_key(t),
{
    assert forall|i: int| 1 <= i < states.len() implies #[trigger] states[i].contains_key(t) by {
        lemma_rounds_leave_rest(states, t, i);
    };
    lemma_rounds_leave_rest(states, t, states.len() - 1);
}

} // verus!
