use cw721_simple::contract::{execute, instantiate, query};
use cw721_simple::error::{ContractError, CustomError, StdError};
use cw721_simple::expiration::{BlockInfo, Env, Expiration};
use cw721_simple::msg::{
    Binary, Empty, ExecuteMsg, InstantiateMsg, MessageInfo, MintMsg, NumTokensResponse, QueryMsg,
    QueryResponse, OwnerOfResponse, TokensResponse,
};
use cw721_simple::response::attr;
use cw721_simple::state::State;

const A: &str = "addr_a";
const B: &str = "addr_b";
const C: &str = "addr_c";

type Extension = Option<Empty>;

fn env_at_height(height: u64) -> Env {
    Env {
        block: BlockInfo {
            height,
            time: 1_571_797_419_879_305_533,
        },
    }
}

fn mock_env() -> Env {
    env_at_height(12_345)
}

fn info(sender: &str) -> MessageInfo {
    MessageInfo {
        sender: sender.to_string(),
    }
}

fn init(state: &mut State<Extension>, minter: &str) {
    instantiate::<Extension, CustomError>(
        state,
        &mock_env(),
        &info(minter),
        InstantiateMsg {
            name: "registry".to_string(),
            symbol: "reg".to_string(),
            minter: minter.to_string(),
        },
    )
    .unwrap();
}

fn mint(
    state: &mut State<Extension>,
    sender: &str,
    owner: &str,
    token_id: &str,
) -> Result<cw721_simple::response::Response, ContractError<CustomError>> {
    execute::<Extension, Empty, CustomError>(
        state,
        mock_env(),
        info(sender),
        ExecuteMsg::Mint(MintMsg {
            token_id: token_id.to_string(),
            owner: owner.to_string(),
            token_uri: None,
            extension: None,
        }),
    )
}

fn approve_at(
    state: &mut State<Extension>,
    env: Env,
    sender: &str,
    spender: &str,
    token_id: &str,
    expires: Option<Expiration>,
) -> Result<cw721_simple::response::Response, ContractError<CustomError>> {
    execute::<Extension, Empty, CustomError>(
        state,
        env,
        info(sender),
        ExecuteMsg::Approve {
            spender: spender.to_string(),
            token_id: token_id.to_string(),
            expires,
        },
    )
}

fn transfer_at(
    state: &mut State<Extension>,
    env: Env,
    sender: &str,
    recipient: &str,
    token_id: &str,
) -> Result<cw721_simple::response::Response, ContractError<CustomError>> {
    execute::<Extension, Empty, CustomError>(
        state,
        env,
        info(sender),
        ExecuteMsg::TransferNft {
            recipient: recipient.to_string(),
            token_id: token_id.to_string(),
        },
    )
}

fn all_tokens(
    state: &State<Extension>,
    start_after: Option<&str>,
    limit: Option<u32>,
) -> Vec<String> {
    match query::<Extension, Empty>(
        state,
        mock_env(),
        QueryMsg::AllTokens {
            start_after: start_after.map(|s| s.to_string()),
            limit,
        },
    )
    .unwrap()
    {
        QueryResponse::Tokens(TokensResponse { tokens }) => tokens,
        other => panic!("unexpected answer: {:?}", other),
    }
}

fn owner_of(state: &State<Extension>, token_id: &str) -> OwnerOfResponse {
    match query::<Extension, Empty>(
        state,
        mock_env(),
        QueryMsg::OwnerOf {
            token_id: token_id.to_string(),
            include_expired: None,
        },
    )
    .unwrap()
    {
        QueryResponse::OwnerOf(resp) => resp,
        other => panic!("unexpected answer: {:?}", other),
    }
}

fn num_tokens(state: &State<Extension>) -> u64 {
    match query::<Extension, Empty>(state, mock_env(), QueryMsg::NumTokens {}).unwrap() {
        QueryResponse::NumTokens(NumTokensResponse { count }) => count,
        other => panic!("unexpected answer: {:?}", other),
    }
}

#[test]
fn mint_twice_same_id_fails_claimed() {
    let mut state: State<Extension> = State::new();
    init(&mut state, A);

    mint(&mut state, A, A, "1").unwrap();
    let err = mint(&mut state, A, B, "1").unwrap_err();
    assert_eq!(err, ContractError::Claimed {});
    // A non-minter caller fails too, before the collision is even looked at.
    let err = mint(&mut state, B, B, "1").unwrap_err();
    assert_eq!(err, ContractError::Unauthorized {});
}

#[test]
fn only_minter_may_mint() {
    let mut state: State<Extension> = State::new();
    init(&mut state, A);

    let err = mint(&mut state, B, B, "1").unwrap_err();
    assert_eq!(err, ContractError::Unauthorized {});
    assert_eq!(num_tokens(&state), 0);
    mint(&mut state, A, B, "1").unwrap();
    assert_eq!(num_tokens(&state), 1);
}

#[test]
fn expired_approval_rejected_and_list_unchanged() {
    let mut state: State<Extension> = State::new();
    init(&mut state, A);
    mint(&mut state, A, A, "1").unwrap();
    approve_at(
        &mut state,
        mock_env(),
        A,
        B,
        "1",
        Some(Expiration::AtHeight(50_000)),
    )
    .unwrap();

    // Height 12_345 is past height 100, so this expiration already elapsed.
    let err = approve_at(
        &mut state,
        mock_env(),
        A,
        C,
        "1",
        Some(Expiration::AtHeight(100)),
    )
    .unwrap_err();
    assert_eq!(err, ContractError::Expired {});

    // The approval list still holds exactly B's entry.
    let resp = owner_of(&state, "1");
    assert_eq!(resp.approvals.len(), 1);
    assert_eq!(resp.approvals[0].spender, B);
}

#[test]
fn transfer_and_send_clear_approvals() {
    let mut state: State<Extension> = State::new();
    init(&mut state, A);
    mint(&mut state, A, A, "1").unwrap();
    approve_at(&mut state, mock_env(), A, B, "1", None).unwrap();
    approve_at(&mut state, mock_env(), A, C, "1", None).unwrap();
    assert_eq!(owner_of(&state, "1").approvals.len(), 2);

    transfer_at(&mut state, mock_env(), A, B, "1").unwrap();
    let resp = owner_of(&state, "1");
    assert_eq!(resp.owner, B);
    assert_eq!(resp.approvals, vec![]);

    // Same through a send.
    approve_at(&mut state, mock_env(), B, C, "1", None).unwrap();
    execute::<Extension, Empty, CustomError>(
        &mut state,
        mock_env(),
        info(B),
        ExecuteMsg::SendNft {
            contract: C.to_string(),
            token_id: "1".to_string(),
            msg: Binary(vec![42]),
        },
    )
    .unwrap();
    let resp = owner_of(&state, "1");
    assert_eq!(resp.owner, C);
    assert_eq!(resp.approvals, vec![]);
}

#[test]
fn reapproving_same_spender_replaces_entry() {
    let mut state: State<Extension> = State::new();
    init(&mut state, A);
    mint(&mut state, A, A, "1").unwrap();

    approve_at(
        &mut state,
        mock_env(),
        A,
        B,
        "1",
        Some(Expiration::AtHeight(50_000)),
    )
    .unwrap();
    approve_at(
        &mut state,
        mock_env(),
        A,
        B,
        "1",
        Some(Expiration::AtHeight(60_000)),
    )
    .unwrap();

    let resp = owner_of(&state, "1");
    assert_eq!(resp.approvals.len(), 1);
    assert_eq!(resp.approvals[0].spender, B);
    assert_eq!(resp.approvals[0].expires, Expiration::AtHeight(60_000));
}

#[test]
fn can_send_cases() {
    let mut state: State<Extension> = State::new();
    init(&mut state, A);

    // The owner can always send.
    mint(&mut state, A, A, "1").unwrap();
    transfer_at(&mut state, mock_env(), A, A, "1").unwrap();

    // A stranger cannot.
    let err = transfer_at(&mut state, mock_env(), B, B, "1").unwrap_err();
    assert_eq!(err, ContractError::Unauthorized {});

    // A live per-token approval can.
    approve_at(
        &mut state,
        mock_env(),
        A,
        B,
        "1",
        Some(Expiration::AtHeight(50_000)),
    )
    .unwrap();
    transfer_at(&mut state, mock_env(), B, A, "1").unwrap();

    // An expired per-token approval cannot.
    approve_at(
        &mut state,
        mock_env(),
        A,
        B,
        "1",
        Some(Expiration::AtHeight(50_000)),
    )
    .unwrap();
    let err = transfer_at(&mut state, env_at_height(50_000), B, B, "1").unwrap_err();
    assert_eq!(err, ContractError::Unauthorized {});

    // A live operator grant can.
    execute::<Extension, Empty, CustomError>(
        &mut state,
        mock_env(),
        info(A),
        ExecuteMsg::ApproveAll {
            operator: C.to_string(),
            expires: Some(Expiration::AtHeight(50_000)),
        },
    )
    .unwrap();
    transfer_at(&mut state, mock_env(), C, A, "1").unwrap();

    // An expired operator grant cannot.
    let err = transfer_at(&mut state, env_at_height(60_000), C, C, "1").unwrap_err();
    assert_eq!(err, ContractError::Unauthorized {});
}

#[test]
fn burn_removes_everywhere() {
    let mut state: State<Extension> = State::new();
    init(&mut state, A);
    mint(&mut state, A, A, "1").unwrap();
    mint(&mut state, A, A, "2").unwrap();
    assert_eq!(num_tokens(&state), 2);

    let res = execute::<Extension, Empty, CustomError>(
        &mut state,
        mock_env(),
        info(A),
        ExecuteMsg::Burn {
            token_id: "1".to_string(),
        },
    )
    .unwrap();
    assert_eq!(
        res.attributes,
        [attr("action", "burn"), attr("sender", A), attr("token_id", "1")]
    );

    assert_eq!(num_tokens(&state), 1);
    assert_eq!(all_tokens(&state, None, None), vec!["2".to_string()]);

    let err = query::<Extension, Empty>(
        &state,
        mock_env(),
        QueryMsg::NftInfo {
            token_id: "1".to_string(),
        },
    )
    .unwrap_err();
    assert!(matches!(err, StdError::NotFound { .. }));

    let owner_tokens = match query::<Extension, Empty>(
        &state,
        mock_env(),
        QueryMsg::Tokens {
            owner: A.to_string(),
            start_after: None,
            limit: None,
        },
    )
    .unwrap()
    {
        QueryResponse::Tokens(TokensResponse { tokens }) => tokens,
        other => panic!("unexpected answer: {:?}", other),
    };
    assert_eq!(owner_tokens, vec!["2".to_string()]);
}

#[test]
fn pagination_strictly_after_cursor() {
    let mut state: State<Extension> = State::new();
    init(&mut state, A);
    for id in ["a", "b", "c", "d"] {
        mint(&mut state, A, A, id).unwrap();
    }

    assert_eq!(
        all_tokens(&state, Some("a"), Some(2)),
        vec!["b".to_string(), "c".to_string()]
    );
    // The cursor itself never shows up, even when it would fit the page.
    assert_eq!(
        all_tokens(&state, Some("b"), Some(10)),
        vec!["c".to_string(), "d".to_string()]
    );
}

#[test]
fn approve_at_heights_scenario() {
    let mut state: State<Extension> = State::new();
    init(&mut state, A);
    mint(&mut state, A, A, "1").unwrap();

    // Below height 50_000 the expiration lies in the future: success.
    let res = approve_at(
        &mut state,
        env_at_height(12_345),
        A,
        B,
        "1",
        Some(Expiration::AtHeight(50_000)),
    )
    .unwrap();
    assert_eq!(
        res.attributes,
        [
            attr("action", "approve"),
            attr("sender", A),
            attr("spender", B),
            attr("token_id", "1"),
        ]
    );

    // At height 50_000 the same expiration has passed: rejected.
    let err = approve_at(
        &mut state,
        env_at_height(50_000),
        A,
        B,
        "1",
        Some(Expiration::AtHeight(50_000)),
    )
    .unwrap_err();
    assert_eq!(err, ContractError::Expired {});
}

#[test]
fn approved_spender_transfer_scenario() {
    let mut state: State<Extension> = State::new();
    init(&mut state, A);
    mint(&mut state, A, A, "1").unwrap();
    approve_at(
        &mut state,
        mock_env(),
        A,
        B,
        "1",
        Some(Expiration::AtHeight(50_000)),
    )
    .unwrap();

    // B holds a live approval, so B may transfer to itself.
    transfer_at(&mut state, mock_env(), B, B, "1").unwrap();

    let resp = owner_of(&state, "1");
    assert_eq!(resp.owner, B);
    assert_eq!(resp.approvals, vec![]);
}

#[test]
fn all_tokens_pagination_scenario() {
    let mut state: State<Extension> = State::new();
    init(&mut state, A);
    mint(&mut state, A, A, "1").unwrap();
    mint(&mut state, A, A, "2").unwrap();

    assert_eq!(all_tokens(&state, None, Some(1)), vec!["1".to_string()]);
    assert_eq!(
        all_tokens(&state, Some("1"), Some(10)),
        vec!["2".to_string()]
    );
}
