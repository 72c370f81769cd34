use vstd::prelude::*;

verus! {

/// The gas budget of a run unless the caller overrides it.
pub const DEFAULT_PREPAID_GAS: u64 = 100_000_000_000_000;

/// The environment of one run. Every backend of a trial gets the same one.
#[derive(Debug)]
pub struct ExecutionContext {
    pub current_account_id: String,
    pub signer_account_id: String,
    pub signer_account_pk: Vec<u8>,
    pub predecessor_account_id: String,
    pub input: Vec<u8>,
    pub block_height: u64,
    pub block_timestamp: u64,
    pub epoch_height: u64,
    pub account_balance: u128,
    pub account_locked_balance: u128,
    pub storage_usage: u64,
    pub attached_deposit: u128,
    pub prepaid_gas: u64,
    pub random_seed: Vec<u8>,
    pub output_data_receivers: Vec<String>,
}

pub ghost struct ContextView {
    pub current_account_id: Seq<char>,
    pub signer_account_id: Seq<char>,
    pub signer_account_pk: Seq<u8>,
    pub predecessor_account_id: Seq<char>,
    pub input: Seq<u8>,
    pub block_height: u64,
    pub block_timestamp: u64,
    pub epoch_height: u64,
    pub account_balance: u128,
    pub account_locked_balance: u128,
    pub storage_usage: u64,
    pub attached_deposit: u128,
    pub prepaid_gas: u64,
    pub random_seed: Seq<u8>,
    pub output_data_receivers: Seq<Seq<char>>,
}

impl View for ExecutionContext {
    type V = ContextView;

    open spec fn view(&self) -> ContextView {
        ContextView {
            current_account_id: self.current_account_id@,
            signer_account_id: self.signer_account_id@,
            signer_account_pk: self.signer_account_pk@,
            predecessor_account_id: self.predecessor_account_id@,
            input: self.input@,
            block_height: self.block_height,
            block_timestamp: self.block_timestamp,
            epoch_height: self.epoch_height,
            account_balance: self.account_balance,
            account_locked_balance: self.account_locked_balance,
            storage_usage: self.storage_usage,
            attached_deposit: self.attached_deposit,
            prepaid_gas: self.prepaid_gas,
            random_seed: self.random_seed@,
            output_data_receivers: self.output_data_receivers@.map_values(|s: String| s@),
        }
    }
}

/// The context of a run on `input` with a budget of `prepaid_gas`: fixed
/// identities and block data, so that it depends on these two alone.
pub open spec fn context_for(input: Seq<u8>, prepaid_gas: u64) -> ContextView {
    ContextView {
        current_account_id: "alice"@,
        signer_account_id: "bob"@,
        signer_account_pk: seq![0u8, 1, 2, 3, 4],
        predecessor_account_id: "carol"@,
        input,
        block_height: 10,
        block_timestamp: 42,
        epoch_height: 1,
        account_balance: 2,
        account_locked_balance: 0,
        storage_usage: 12,
        attached_deposit: 2,
        prepaid_gas,
        random_seed: seq![0u8, 1, 2],
        output_data_receivers: Seq::empty(),
    }
}

/// Builds the context of a run on `input`, with the gas budget
/// `gas_override` where one is given.
pub fn build_context(input: Vec<u8>, gas_override: Option<u64>) -> (r: ExecutionContext)
    ensures
        r@ == context_for(
            input@,
            match gas_override {
                Some(g) => g,
                None => DEFAULT_PREPAID_GAS,
            },
        ),
{
    let prepaid_gas = match gas_override {
        Some(g) => g,
        None => DEFAULT_PREPAID_GAS,
    };
    let r = ExecutionContext {
        current_account_id: "alice".to_owned(),
        signer_account_id: "bob".to_owned(),
        signer_account_pk: vec![0u8, 1, 2, 3, 4],
        predecessor_account_id: "carol".to_owned(),
        input,
        block_height: 10,
        block_timestamp: 42,
        epoch_height: 1,
        account_balance: 2,
        account_locked_balance: 0,
        storage_usage: 12,
        attached_deposit: 2,
        prepaid_gas,
        random_seed: vec![0u8, 1, 2],
        output_data_receivers: Vec::new(),
    };
    assert(r.signer_account_pk@ =~= seq![0u8, 1, 2, 3, 4]);
    assert(r.random_seed@ =~= seq![0u8, 1, 2]);
    assert(r.output_data_receivers@.map_values(|s: String| s@) =~= Seq::<Seq<char>>::empty());
    r
}

/// Builds the context of a run on `input` with the default gas budget.
pub fn create_context(input: Vec<u8>) -> (r: ExecutionContext)
    ensures
        r@ == context_for(input@, DEFAULT_PREPAID_GAS),
{
    build_context(input, None)
}

} // verus!
