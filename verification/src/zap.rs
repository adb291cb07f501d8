//! The zap dispatcher: one input asset is split in half and exchanged, in a
//! single outbound call, for two different output assets.

use vstd::prelude::*;
use crate::account::{AccountId, account_id_valid};

verus! {

/// Pool used for the first swap leg.
pub const FIRST_POOL_ID: u64 = 269;

/// Pool used for the second swap leg.
pub const SECOND_POOL_ID: u64 = 103;

/// Gas allowance attached to the outbound swap call.
pub const SWAP_CALL_GAS: u64 = 110_000_000_000_000;

/// One exchange step, addressed to a liquidity pool of the exchange contract.
pub struct SwapAction {
    /// Pool which should be used for swapping.
    pub pool_id: u64,
    /// Token to swap from.
    pub token_in: AccountId,
    /// Amount to exchange. If absent, the step draws on the output of the
    /// previous step, which fails if this is the first step of a batch.
    pub amount_in: Option<u128>,
    /// Token to swap into.
    pub token_out: AccountId,
    /// Required minimum amount of `token_out`.
    pub min_amount_out: u128,
}

/// The mathematical value of a [`SwapAction`]: the same fields with the
/// tokens as character sequences.
pub ghost struct SwapActionModel {
    pub pool_id: u64,
    pub token_in: Seq<char>,
    pub amount_in: Option<u128>,
    pub token_out: Seq<char>,
    pub min_amount_out: u128,
}

impl View for SwapAction {
    type V = SwapActionModel;

    open spec fn view(&self) -> SwapActionModel {
        SwapActionModel {
            pool_id: self.pool_id,
            token_in: self.token_in@,
            amount_in: self.amount_in,
            token_out: self.token_out@,
            min_amount_out: self.min_amount_out,
        }
    }
}

impl SwapAction {
    /// Both tokens are well-formed account identifiers.
    pub open spec fn wf(&self) -> bool {
        self.token_in.wf() && self.token_out.wf()
    }
}

/// The outbound call surface of the exchange contract that swap actions are
/// sent to. This library only builds the arguments; performing the
/// asynchronous call is the runtime's business.
pub trait SwapContract {
    /// Execute a batch of swap actions, optionally crediting a referral.
    fn swap(&mut self, actions: Vec<SwapAction>, referral_id: Option<AccountId>) -> u128;

    /// Deposit amounts into a pool (declared capability; never dispatched
    /// by this library).
    fn add_liquidity(&mut self, pool_id: u64, amounts: Vec<u128>, min_amounts: Option<Vec<u128>>);
}

/// The address of the exchange contract that initialization configures.
pub open spec fn exchange_account() -> Seq<char> {
    "exchange.ref-dev.testnet"@
}

/// A batch of actions sent in one call must open with a present input
/// amount: the first step has no previous step to draw on.
pub open spec fn batch_well_formed(actions: Seq<SwapActionModel>) -> bool {
    actions.len() > 0 ==> actions[0].amount_in is Some
}

/// One fully-described outbound call to the exchange contract. Building this
/// value is the whole of the zap operation; performing the asynchronous call
/// it describes is left to the runtime.
pub struct ZapCall {
    /// The exchange contract the call is addressed to.
    pub receiver: AccountId,
    /// The swap steps, executed by the exchange in order.
    pub actions: Vec<SwapAction>,
    /// Account credited for the referral; never set by this library.
    pub referral_id: Option<AccountId>,
    /// Value transfer attached to the call.
    pub deposit: u128,
    /// Gas allowance attached to the call.
    pub gas: u64,
}

impl ZapCall {
    /// The mathematical values of the batched actions, in order.
    pub open spec fn action_models(&self) -> Seq<SwapActionModel> {
        self.actions@.map_values(|a: SwapAction| a@)
    }

    /// The receiver and every token are well-formed account identifiers, and
    /// the batch opens with a present input amount.
    pub open spec fn wf(&self) -> bool {
        &&& self.receiver.wf()
        &&& forall|i: int| 0 <= i < self.actions@.len() ==> (#[trigger] self.actions@[i]).wf()
        &&& batch_well_formed(self.action_models())
    }
}

/// The two actions a zap generates: each half of the input goes through its
/// own fixed pool into its own output token, with no minimum-output guard.
pub open spec fn zap_action_models(
    input_amount: u128,
    token_in: Seq<char>,
    token_out1: Seq<char>,
    token_out2: Seq<char>,
) -> Seq<SwapActionModel> {
    seq![
        SwapActionModel {
            pool_id: FIRST_POOL_ID,
            token_in: token_in,
            amount_in: Some(((input_amount as int) / 2) as u128),
            token_out: token_out1,
            min_amount_out: 0,
        },
        SwapActionModel {
            pool_id: SECOND_POOL_ID,
            token_in: token_in,
            amount_in: Some(((input_amount as int) / 2) as u128),
            token_out: token_out2,
            min_amount_out: 0,
        },
    ]
}

/// Everything [`Contract::zap`] promises of the call it builds. Note that the
/// pool selector passed to `zap` does not appear here: the generated actions
/// never depend on it.
pub open spec fn zap_call_post(
    call: ZapCall,
    configured: Seq<char>,
    input_amount: u128,
    token_in: Seq<char>,
    token_out1: Seq<char>,
    token_out2: Seq<char>,
) -> bool {
    &&& call.receiver@ == configured
    &&& call.action_models() == zap_action_models(input_amount, token_in, token_out1, token_out2)
    &&& call.referral_id is None
    &&& call.deposit == 0
    &&& call.gas == SWAP_CALL_GAS
}

/// Initialization failures.
#[derive(Clone, Copy, PartialEq, Eq, Structural, Debug)]
pub enum InitError {
    /// Construction was attempted on a contract whose state already exists.
    AlreadyInitialized,
}

/// The deployed contract: its one persisted value is the address of the
/// exchange contract that zaps are dispatched to, fixed at initialization
/// and never mutated.
pub struct Contract {
    swap_contract: AccountId,
}

impl View for Contract {
    type V = Seq<char>;

    /// The configured exchange address.
    closed spec fn view(&self) -> Seq<char> {
        self.swap_contract@
    }
}

impl Contract {
    /// The configured address is a well-formed account identifier.
    pub open spec fn wf(&self) -> bool {
        account_id_valid(self@)
    }

    /// Construct the contract, configured with the fixed exchange address.
    pub fn new() -> (c: Contract)
        ensures
            c.wf(),
            c@ == exchange_account(),
    {
        proof {
            reveal_strlit("exchange.ref-dev.testnet");
            reveal_with_fuel(crate::account::separators_well_placed_from, 26);
            assert(account_id_valid("exchange.ref-dev.testnet"@));
        }
        let parsed = AccountId::parse("exchange.ref-dev.testnet");
        Contract { swap_contract: parsed.unwrap() }
    }

    /// One-time setup. The runtime reports whether contract state already
    /// exists; construction is refused the second time.
    pub fn initialize(already_initialized: bool) -> (r: Result<Contract, InitError>)
        ensures
            already_initialized <==> r is Err,
            r matches Err(e) ==> e == InitError::AlreadyInitialized,
            r matches Ok(c) ==> c.wf() && c@ == exchange_account(),
    {
        if already_initialized {
            Err(InitError::AlreadyInitialized)
        } else {
            Ok(Contract::new())
        }
    }

    /// Split `input_amount` in half (integer floor division: an odd amount
    /// silently loses one unit) and build the outbound call that swaps one
    /// half into `token_out1` through the first fixed pool and the other
    /// half into `token_out2` through the second, with no slippage guard and
    /// the fixed gas allowance. The `pool_id` selector is accepted but never
    /// consulted: the pool ids of the generated actions are constants.
    pub fn zap(
        self,
        input_amount: u128,
        token_in: AccountId,
        token_out1: AccountId,
        token_out2: AccountId,
        pool_id: u32,
    ) -> (call: ZapCall)
        requires
            self.wf(),
            token_in.wf(),
            token_out1.wf(),
            token_out2.wf(),
        ensures
            call.wf(),
            zap_call_post(call, self@, input_amount, token_in@, token_out1@, token_out2@),
    {
        let half_amount = input_amount / 2;

        let swap_action1 = SwapAction {
            pool_id: FIRST_POOL_ID,
            token_in: token_in.clone(),
            token_out: token_out1,
            amount_in: Some(half_amount),
            min_amount_out: 0,
        };

        let swap_action2 = SwapAction {
            pool_id: SECOND_POOL_ID,
            token_in: token_in,
            token_out: token_out2,
            amount_in: Some(half_amount),
            min_amount_out: 0,
        };

        let mut actions: Vec<SwapAction> = Vec::new();
        actions.push(swap_action1);
        actions.push(swap_action2);

        let call = ZapCall {
            receiver: self.swap_contract,
            actions,
            referral_id: None,
            deposit: 0,
            gas: SWAP_CALL_GAS,
        };
        proof {
            assert(call.action_models() =~= zap_action_models(
                input_amount,
                token_in@,
                token_out1@,
                token_out2@,
            ));
        }
        call
    }
}

} // verus!
