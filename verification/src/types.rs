use vstd::prelude::*;

verus! {

/// Milliseconds in one registration year.
pub const ONE_YEAR_MILLISECOND: u64 = 31556952000;

/// One whole NEAR, in yoctoNEAR.
pub const DEFAULT_ONE_NEAR_YOCTO: u128 = 1_000_000_000_000_000_000_000_000;

/// Default registration overhead withheld from an attached deposit.
pub const DEFAULT_REGISTER_GAS_DEPOSIT: u128 = DEFAULT_ONE_NEAR_YOCTO / 2;

/// What the chain charges per byte of account storage, in yoctoNEAR.
pub const STORAGE_PRICE_PER_BYTE: u128 = 10_000_000_000_000_000_000;

/// Storage margin added on top of the resolver code size when pricing a
/// resolver deployment.
pub const EXTRA_BYTES: usize = 10000;

/// Gas attached to each outbound cross-contract function call.
pub const FUNCTION_CALL_GAS: u64 = 50_000_000_000_000;

/// The single yoctoNEAR a caller must attach to a privileged setter.
pub const ONE_YOCTO: u128 = 1;

/// Why a call was refused.  Every error aborts the call: the caller's state
/// is left exactly as it was.
#[derive(Clone, Copy, Debug, PartialEq, Eq, Structural)]
pub enum NnsError {
    /// The caller is not the account the operation is reserved to.
    Unauthorized,
    /// The name's expiration lies in the past.
    Expired,
    /// The name's expiration lies in the future, so it cannot be re-registered.
    Unexpired,
    /// The attached funds are below the computed minimum.
    InsufficientDeposit,
    /// An expiration update that does not move the date into the future.
    InvalidExpiration,
    /// An ownership relay that would record no change of owner.
    OwnerUnchanged,
    /// The text-record store would hold more than its cap after the batch.
    TooManyRecords,
    /// A second construction of an already-initialized contract.  Only the
    /// deployment shell, which sees the host state, can observe this.
    AlreadyInitialized,
}

/// The ambient facts one contract invocation reads from its host chain,
/// reified as an explicit parameter.
pub struct CallContext {
    /// The account that called this contract directly.
    pub predecessor_account_id: String,
    /// The account that signed the whole transaction.
    pub signer_account_id: String,
    /// Deposit attached to this call, in yoctoNEAR.
    pub attached_deposit: u128,
    /// Block timestamp, in milliseconds.
    pub block_timestamp_ms: u64,
}

/// The finalized outcome of the one prior promise a continuation observes.
#[derive(Clone, Copy, Debug, PartialEq, Eq, Structural)]
pub enum PromiseOutcome {
    Succeeded,
    Failed,
}

/// Display metadata of a name token, derived deterministically from the name.
#[derive(Debug, PartialEq)]
pub struct TokenMetadata {
    pub title: String,
    pub description: String,
}

/// A snapshot of one name token, as returned to callers.
#[derive(Debug, PartialEq)]
pub struct Token {
    pub token_id: String,
    pub owner_id: String,
    pub metadata: Option<TokenMetadata>,
}

/// What the registry stores for one minted name.
pub struct NameRecord {
    pub owner_id: String,
    pub metadata: TokenMetadata,
}

/// A refund continuation chained behind an asynchronous mutation: if the
/// mutation fails, `deposited` goes back to `signer`.
#[derive(Debug, PartialEq)]
pub struct RefundOnFailure {
    pub signer: String,
    pub deposited: u128,
}

/// The asynchronous self-call `register` dispatches: the actual mutation,
/// carrying the net deposit, chained with a refund continuation.
#[derive(Debug, PartialEq)]
pub struct RegisterNameCall {
    /// The registry account itself: the mutation is a privileged self-call.
    pub target_account_id: String,
    pub attached_deposit: u128,
    pub gas: u64,
    pub token_id: String,
    pub token_owner_id: String,
    pub token_metadata: TokenMetadata,
    pub years_extended: u64,
    pub on_failure: RefundOnFailure,
}

/// The deployment `setup` dispatches: create the sub-account, move the
/// computed balance over, deploy the resolver code and call its initializer,
/// chained with a refund continuation.
#[derive(Debug, PartialEq)]
pub struct DeployResolverCall {
    pub resolver_account_id: String,
    pub transfer_amount: u128,
    /// JSON arguments handed to the resolver's initializer.
    pub init_args: String,
    pub gas: u64,
    pub on_failure: RefundOnFailure,
}

/// The ownership push `take_ownership` dispatches to a deployed resolver.
#[derive(Debug, PartialEq)]
pub struct OwnerChangedCall {
    pub resolver_account_id: String,
    /// JSON arguments handed to the resolver's `owner_changed` entry point.
    pub args: String,
    pub gas: u64,
}

/// The delegated two-phase transfer `nft_transfer_call` hands to the token
/// standard: call the receiver, then resolve against its verdict.
#[derive(Debug, PartialEq)]
pub struct TransferCallAction {
    pub receiver_id: String,
    pub token_id: String,
    pub approval_id: Option<u64>,
    pub memo: Option<String>,
    pub msg: String,
}

/// A plain transfer of funds, the sole compensating action of the system.
#[derive(Debug, PartialEq)]
pub struct Refund {
    pub receiver_id: String,
    pub amount: u128,
}

/// Deletion of the resolver account, sending its remaining balance on.
#[derive(Debug, PartialEq)]
pub struct DeleteAccountAction {
    pub beneficiary: String,
}

} // verus!
