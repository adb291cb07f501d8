//! Laws of the zap dispatcher, stated over the contract of
//! [`crate::zap::Contract::zap`]: every conclusion below holds of any call
//! descriptor that satisfies [`zap_call_post`].

use vstd::prelude::*;
use crate::zap::{ZapCall, zap_call_post, FIRST_POOL_ID, SECOND_POOL_ID};

verus! {

/// Law: an even input amount is split exactly in half — each generated
/// action carries `input_amount / 2`, and the two amounts sum back to the
/// whole input.
pub proof fn lemma_even_split(
    call: ZapCall,
    configured: Seq<char>,
    input_amount: u128,
    token_in: Seq<char>,
    token_out1: Seq<char>,
    token_out2: Seq<char>,
)
    requires
        zap_call_post(call, configured, input_amount, token_in, token_out1, token_out2),
        input_amount % 2 == 0,
    ensures
        call.action_models()[0].amount_in == Some((input_amount / 2) as u128),
        call.action_models()[1].amount_in == Some((input_amount / 2) as u128),
        (input_amount / 2) + (input_amount / 2) == input_amount,
{
}

/// Law: an odd input amount loses exactly one unit to floor division — the
/// two generated amounts sum to `input_amount - 1`.
pub proof fn lemma_odd_split(
    call: ZapCall,
    configured: Seq<char>,
    input_amount: u128,
    token_in: Seq<char>,
    token_out1: Seq<char>,
    token_out2: Seq<char>,
)
    requires
        zap_call_post(call, configured, input_amount, token_in, token_out1, token_out2),
        input_amount % 2 == 1,
    ensures
        (input_amount / 2) + (input_amount / 2) == input_amount - 1,
        call.action_models()[0].amount_in == Some((input_amount / 2) as u128),
        call.action_models()[1].amount_in == Some((input_amount / 2) as u128),
{
}

/// Law: the first generated action always carries a present input amount,
/// whatever the input — the batch invariant that the exchange demands of a
/// first step.
pub proof fn lemma_first_amount_present(
    call: ZapCall,
    configured: Seq<char>,
    input_amount: u128,
    token_in: Seq<char>,
    token_out1: Seq<char>,
    token_out2: Seq<char>,
)
    requires
        zap_call_post(call, configured, input_amount, token_in, token_out1, token_out2),
    ensures
        call.action_models()[0].amount_in is Some,
{
}

/// Law: both generated actions carry a minimum output of zero, regardless of
/// input — the zap attaches no slippage guard.
pub proof fn lemma_min_amount_out_zero(
    call: ZapCall,
    configured: Seq<char>,
    input_amount: u128,
    token_in: Seq<char>,
    token_out1: Seq<char>,
    token_out2: Seq<char>,
)
    requires
        zap_call_post(call, configured, input_amount, token_in, token_out1, token_out2),
    ensures
        call.action_models()[0].min_amount_out == 0,
        call.action_models()[1].min_amount_out == 0,
{
}

/// Law: the pool selector passed to `zap` never affects the outcome. The
/// dispatch contract does not mention it, so any two call descriptors built
/// from the same configuration, amount and tokens — under any two selector
/// values — agree on every observable part, and their pool ids are the fixed
/// constants.
pub proof fn lemma_pool_selector_ignored(
    call1: ZapCall,
    call2: ZapCall,
    configured: Seq<char>,
    input_amount: u128,
    token_in: Seq<char>,
    token_out1: Seq<char>,
    token_out2: Seq<char>,
)
    requires
        zap_call_post(call1, configured, input_amount, token_in, token_out1, token_out2),
        zap_call_post(call2, configured, input_amount, token_in, token_out1, token_out2),
    ensures
        call1.action_models() == call2.action_models(),
        call1.receiver@ == call2.receiver@,
        call1.referral_id is None && call2.referral_id is None,
        call1.deposit == call2.deposit,
        call1.gas == call2.gas,
        call1.action_models()[0].pool_id == FIRST_POOL_ID,
        call1.action_models()[1].pool_id == SECOND_POOL_ID,
{
}

} // verus!
