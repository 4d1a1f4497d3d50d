use vstd::prelude::*;

use crate::ledger::{call_outcome, JetLumen};

verus! {

/// The sum of a sequence of amounts, as a mathematical integer.
pub open spec fn sum_amounts(amounts: Seq<i128>) -> int
    decreases amounts.len(),
{
    if amounts.len() == 0 {
        0
    } else {
        sum_amounts(amounts.drop_last()) + amounts.last()
    }
}

/// Starting from a fresh accumulator, after transfers of `amounts[0]`, ...,
/// `amounts[n - 1]` have all been recorded, the total is their sum.
/// `states[i]` is the state before the call numbered `i`.
pub proof fn lemma_total_is_sum<A>(
    states: Seq<JetLumen<A>>,
    recipients: Seq<A>,
    amounts: Seq<i128>,
)
    requires
        states.len() == amounts.len() + 1,
        recipients.len() == amounts.len(),
        states[0].is_fresh(),
        forall|i: int|
            0 <= i < amounts.len() ==> #[trigger] states[i].records(
                &states[i + 1],
                recipients[i],
                amounts[i],
            ),
    ensures
        states.last().total_spec() == sum_amounts(amounts),
    decreases amounts.len(),
{
    if amounts.len() > 0 {
        let n = amounts.len() - 1;
        let prefix = states.drop_last();
        assert forall|i: int| 0 <= i < n implies #[trigger] prefix[i].records(
            &prefix[i + 1],
            recipients.drop_last()[i],
            amounts.drop_last()[i],
        ) by {
            assert(states[i].records(&states[i + 1], recipients[i], amounts[i]));
        }
        lemma_total_is_sum(prefix, recipients.drop_last(), amounts.drop_last());
        assert(states[n].records(&states[n + 1], recipients[n], amounts[n]));
    }
}

/// After any sequence of calls, some recorded and some refused, the reported
/// last recipient is the recipient of the latest recorded one, whatever the
/// amounts and senders. `states[i]` is the state before the call numbered
/// `i`, `ok[i]` says whether that call succeeded, and `j` is the latest
/// call that did.
pub proof fn lemma_last_recipient_is_latest_success<A>(
    states: Seq<JetLumen<A>>,
    recipients: Seq<A>,
    amounts: Seq<i128>,
    ok: Seq<bool>,
    j: int,
)
    requires
        states.len() == ok.len() + 1,
        recipients.len() == ok.len(),
        amounts.len() == ok.len(),
        forall|i: int|
            0 <= i < ok.len() ==> #[trigger] call_outcome(
                states[i],
                states[i + 1],
                recipients[i],
                amounts[i],
                ok[i],
            ),
        0 <= j < ok.len(),
        ok[j],
        forall|k: int| j < k < ok.len() ==> !ok[k],
    ensures
        states.last().last_recipient_spec() == recipients[j],
    decreases ok.len(),
{
    let n = ok.len() - 1;
    assert(call_outcome(states[n], states[n + 1], recipients[n], amounts[n], ok[n]));
    if j < n {
        let prefix = states.drop_last();
        assert forall|i: int| 0 <= i < n implies #[trigger] call_outcome(
            prefix[i],
            prefix[i + 1],
            recipients.drop_last()[i],
            amounts.drop_last()[i],
            ok.drop_last()[i],
        ) by {
            assert(call_outcome(states[i], states[i + 1], recipients[i], amounts[i], ok[i]));
        }
        lemma_last_recipient_is_latest_success(
            prefix,
            recipients.drop_last(),
            amounts.drop_last(),
            ok.drop_last(),
            j,
        );
    }
}

} // verus!
