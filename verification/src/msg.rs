//! Command and query payloads, and the response shapes queries produce.
//!
//! Field names mirror the wire contract; the boundary layer that encodes and
//! decodes them lives outside this crate and hands these structures over as
//! plain values.

use vstd::prelude::*;
use crate::expiration::Expiration;

verus! {

/// An opaque byte payload carried through the registry unmodified.
#[derive(Clone, Debug, PartialEq, Eq)]
pub struct Binary(pub Vec<u8>);

impl Default for Binary {
    /// The empty payload.
    fn default() -> (r: Self)
        ensures
            r.0@ == Seq::<u8>::empty(),
    {
        Binary(Vec::new())
    }
}

/// A message with no content: the placeholder for unused extension slots.
#[derive(Clone, Copy, Debug, PartialEq, Eq, Structural)]
pub struct Empty {}

/// Who is calling a command.
#[derive(Clone, Debug, PartialEq, Eq)]
pub struct MessageInfo {
    /// The canonical address of the caller.
    pub sender: String,
}

/// The message that initializes the registry.
#[derive(Clone, Debug, PartialEq, Eq)]
pub struct InstantiateMsg {
    /// Name of the token collection.
    pub name: String,
    /// Ticker symbol of the token collection.
    pub symbol: String,
    /// The one address that may mint new tokens.
    pub minter: String,
}

/// The payload of a mint command.
#[derive(Clone, Debug, PartialEq, Eq)]
pub struct MintMsg<T> {
    /// Unique id of the token to create.
    pub token_id: String,
    /// Owner of the newly minted token.
    pub owner: String,
    /// Universal resource identifier pointing at off-ledger metadata.
    pub token_uri: Option<String>,
    /// Caller-defined payload stored with the token, never interpreted.
    pub extension: T,
}

/// One state-changing command, parametric in the token extension `T` and a
/// pass-through extension message `M`.
#[derive(Clone, Debug, PartialEq, Eq)]
pub enum ExecuteMsg<T, M> {
    /// Create a new token; only the minter may do this.
    Mint(MintMsg<T>),
    /// Grant `spender` the right to move one specific token.
    Approve { spender: String, token_id: String, expires: Option<Expiration> },
    /// Withdraw a previously granted per-token approval.
    Revoke { spender: String, token_id: String },
    /// Grant `operator` the right to move every token the caller owns.
    ApproveAll { operator: String, expires: Option<Expiration> },
    /// Withdraw a previously granted operator grant.
    RevokeAll { operator: String },
    /// Move a token to a new owner.
    TransferNft { recipient: String, token_id: String },
    /// Move a token to a contract and notify it with `msg`.
    SendNft { contract: String, token_id: String, msg: Binary },
    /// Destroy a token.
    Burn { token_id: String },
    /// An extension command the core passes through without acting on.
    Extension { msg: M },
}

/// One read-only query, parametric in a pass-through extension query `Q`.
#[derive(Clone, Debug, PartialEq, Eq)]
pub enum QueryMsg<Q> {
    /// Who may mint.
    Minter {},
    /// Name and symbol of the collection.
    ContractInfo {},
    /// Metadata of one token.
    NftInfo { token_id: String },
    /// Owner and approvals of one token.
    OwnerOf { token_id: String, include_expired: Option<bool> },
    /// Owner, approvals and metadata of one token in one answer.
    AllNftInfo { token_id: String, include_expired: Option<bool> },
    /// The operator grants one owner has given, paginated.
    AllOperators {
        owner: String,
        include_expired: Option<bool>,
        start_after: Option<String>,
        limit: Option<u32>,
    },
    /// How many tokens are live.
    NumTokens {},
    /// All live token ids, paginated.
    AllTokens { start_after: Option<String>, limit: Option<u32> },
    /// One spender's approval on one token.
    Approval { token_id: String, spender: String, include_expired: Option<bool> },
    /// All approvals on one token.
    Approvals { token_id: String, include_expired: Option<bool> },
    /// Token ids owned by one address, paginated.
    Tokens { owner: String, start_after: Option<String>, limit: Option<u32> },
    /// An extension query the core passes through without acting on.
    Extension { msg: Q },
}

/// An approval as reported to callers.
#[derive(Clone, Debug, PartialEq, Eq)]
pub struct Approval {
    /// Account that can transfer or send the token.
    pub spender: String,
    /// When the approval expires.
    pub expires: Expiration,
}

/// Name and symbol of the collection.
#[derive(Clone, Debug, PartialEq, Eq)]
pub struct ContractInfoResponse {
    pub name: String,
    pub symbol: String,
}

/// Who may mint.
#[derive(Clone, Debug, PartialEq, Eq)]
pub struct MinterResponse {
    pub minter: String,
}

/// How many tokens are live.
#[derive(Clone, Debug, PartialEq, Eq)]
pub struct NumTokensResponse {
    pub count: u64,
}

/// Metadata of one token.
#[derive(Clone, Debug, PartialEq, Eq)]
pub struct NftInfoResponse<T> {
    pub token_uri: Option<String>,
    pub extension: T,
}

/// Owner and approvals of one token.
#[derive(Clone, Debug, PartialEq, Eq)]
pub struct OwnerOfResponse {
    pub owner: String,
    pub approvals: Vec<Approval>,
}

/// Owner, approvals and metadata of one token in one answer.
#[derive(Clone, Debug, PartialEq, Eq)]
pub struct AllNftInfoResponse<T> {
    pub access: OwnerOfResponse,
    pub info: NftInfoResponse<T>,
}

/// One spender's approval on one token.
#[derive(Clone, Debug, PartialEq, Eq)]
pub struct ApprovalResponse {
    pub approval: Approval,
}

/// All approvals on one token.
#[derive(Clone, Debug, PartialEq, Eq)]
pub struct ApprovalsResponse {
    pub approvals: Vec<Approval>,
}

/// The operator grants one owner has given.
#[derive(Clone, Debug, PartialEq, Eq)]
pub struct OperatorsResponse {
    pub operators: Vec<Approval>,
}

/// A page of token ids.
#[derive(Clone, Debug, PartialEq, Eq)]
pub struct TokensResponse {
    pub tokens: Vec<String>,
}

/// The answer to one query, one variant per query kind.  The boundary layer
/// encodes the carried value for the wire.
#[derive(Clone, Debug, PartialEq, Eq)]
pub enum QueryResponse<T> {
    Minter(MinterResponse),
    ContractInfo(ContractInfoResponse),
    NftInfo(NftInfoResponse<T>),
    OwnerOf(OwnerOfResponse),
    AllNftInfo(AllNftInfoResponse<T>),
    Operators(OperatorsResponse),
    NumTokens(NumTokensResponse),
    Tokens(TokensResponse),
    Approval(ApprovalResponse),
    Approvals(ApprovalsResponse),
    /// The pass-through answer to an extension query: the empty payload.
    Extension(Binary),
}

} // verus!
