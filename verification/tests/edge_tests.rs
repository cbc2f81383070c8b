use cw721_simple::contract::{execute, instantiate, query};
use cw721_simple::error::{ContractError, CustomError, StdError};
use cw721_simple::expiration::{BlockInfo, Env, Expiration};
use cw721_simple::msg::{
    Approval, ApprovalResponse, Empty, ExecuteMsg, InstantiateMsg, MessageInfo, MintMsg,
    OperatorsResponse, QueryMsg, QueryResponse, TokensResponse,
};
use cw721_simple::state::State;

const A: &str = "addr_a";
const B: &str = "addr_b";
const C: &str = "addr_c";

type Extension = Option<Empty>;

fn env_at_height(height: u64) -> Env {
    Env {
        block: BlockInfo {
            height,
            time: 1_571_797_419_879_305_533,
        },
    }
}

fn mock_env() -> Env {
    env_at_height(12_345)
}

fn info(sender: &str) -> MessageInfo {
    MessageInfo {
        sender: sender.to_string(),
    }
}

fn init(state: &mut State<Extension>, minter: &str) {
    instantiate::<Extension, CustomError>(
        state,
        &mock_env(),
        &info(minter),
        InstantiateMsg {
            name: "registry".to_string(),
            symbol: "reg".to_string(),
            minter: minter.to_string(),
        },
    )
    .unwrap();
}

fn mint(state: &mut State<Extension>, owner: &str, token_id: &str) {
    execute::<Extension, Empty, CustomError>(
        state,
        mock_env(),
        info(A),
        ExecuteMsg::Mint(MintMsg {
            token_id: token_id.to_string(),
            owner: owner.to_string(),
            token_uri: None,
            extension: None,
        }),
    )
    .unwrap();
}

fn all_tokens(
    state: &State<Extension>,
    start_after: Option<&str>,
    limit: Option<u32>,
) -> Vec<String> {
    match query::<Extension, Empty>(
        state,
        mock_env(),
        QueryMsg::AllTokens {
            start_after: start_after.map(|s| s.to_string()),
            limit,
        },
    )
    .unwrap()
    {
        QueryResponse::Tokens(TokensResponse { tokens }) => tokens,
        other => panic!("unexpected answer: {:?}", other),
    }
}

#[test]
fn empty_registry_queries() {
    let mut state: State<Extension> = State::new();
    init(&mut state, A);

    assert_eq!(
        query::<Extension, Empty>(&state, mock_env(), QueryMsg::NumTokens {}).unwrap(),
        QueryResponse::NumTokens(cw721_simple::msg::NumTokensResponse { count: 0 })
    );
    assert_eq!(all_tokens(&state, None, None), Vec::<String>::new());

    let err = query::<Extension, Empty>(
        &state,
        mock_env(),
        QueryMsg::OwnerOf {
            token_id: "1".to_string(),
            include_expired: None,
        },
    )
    .unwrap_err();
    assert!(matches!(err, StdError::NotFound { .. }));
}

#[test]
fn default_limit_is_ten() {
    let mut state: State<Extension> = State::new();
    init(&mut state, A);
    for i in 0..12u32 {
        mint(&mut state, A, &format!("{:02}", i));
    }
    assert_eq!(all_tokens(&state, None, None).len(), 10);
}

#[test]
fn limit_clamped_to_one_hundred() {
    let mut state: State<Extension> = State::new();
    init(&mut state, A);
    for i in 0..105u32 {
        mint(&mut state, A, &format!("{:03}", i));
    }
    assert_eq!(all_tokens(&state, None, Some(200)).len(), 100);
    assert_eq!(all_tokens(&state, None, Some(105)).len(), 100);
    let page = all_tokens(&state, None, Some(100));
    assert_eq!(page.len(), 100);
    assert_eq!(page[0], "000");
    assert_eq!(page[99], "099");
    assert_eq!(all_tokens(&state, Some("099"), Some(100)).len(), 5);
}

#[test]
fn limit_clamped_up_to_one() {
    let mut state: State<Extension> = State::new();
    init(&mut state, A);
    mint(&mut state, A, "1");
    mint(&mut state, A, "2");

    // A zero page size is clamped up to one key.
    assert_eq!(all_tokens(&state, None, Some(0)), vec!["1".to_string()]);

    let owner_page = match query::<Extension, Empty>(
        &state,
        mock_env(),
        QueryMsg::Tokens {
            owner: A.to_string(),
            start_after: None,
            limit: Some(0),
        },
    )
    .unwrap()
    {
        QueryResponse::Tokens(TokensResponse { tokens }) => tokens,
        other => panic!("unexpected answer: {:?}", other),
    };
    assert_eq!(owner_page, vec!["1".to_string()]);

    execute::<Extension, Empty, CustomError>(
        &mut state,
        mock_env(),
        info(A),
        ExecuteMsg::ApproveAll {
            operator: B.to_string(),
            expires: None,
        },
    )
    .unwrap();
    let operators = match query::<Extension, Empty>(
        &state,
        mock_env(),
        QueryMsg::AllOperators {
            owner: A.to_string(),
            include_expired: None,
            start_after: None,
            limit: Some(0),
        },
    )
    .unwrap()
    {
        QueryResponse::Operators(OperatorsResponse { operators }) => operators,
        other => panic!("unexpected answer: {:?}", other),
    };
    assert_eq!(operators.len(), 1);
    assert_eq!(operators[0].spender, B);
}

#[test]
fn operators_pagination_and_expiry_filter() {
    let mut state: State<Extension> = State::new();
    init(&mut state, A);

    for (op, expires) in [
        ("op_a", Expiration::AtHeight(20_000)),
        ("op_b", Expiration::Never),
        ("op_c", Expiration::AtHeight(50_000)),
    ] {
        execute::<Extension, Empty, CustomError>(
            &mut state,
            mock_env(),
            info(A),
            ExecuteMsg::ApproveAll {
                operator: op.to_string(),
                expires: Some(expires),
            },
        )
        .unwrap();
    }

    fn ops(
        state: &State<Extension>,
        include_expired: Option<bool>,
        start_after: Option<&str>,
        env: Env,
    ) -> Vec<Approval> {
        match query::<Extension, Empty>(
            state,
            env,
            QueryMsg::AllOperators {
                owner: A.to_string(),
                include_expired,
                start_after: start_after.map(|s| s.to_string()),
                limit: None,
            },
        )
        .unwrap()
        {
            QueryResponse::Operators(OperatorsResponse { operators }) => operators,
            other => panic!("unexpected answer: {:?}", other),
        }
    }

    // At height 30_000 the first grant has expired and is filtered out.
    let live = ops(&state, None, None, env_at_height(30_000));
    assert_eq!(live.len(), 2);
    assert_eq!(live[0].spender, "op_b");
    assert_eq!(live[1].spender, "op_c");

    // Asked for, expired grants are reported.
    let all = ops(&state, Some(true), None, env_at_height(30_000));
    assert_eq!(all.len(), 3);
    assert_eq!(all[0].spender, "op_a");

    // The cursor excludes itself.
    let after = ops(&state, Some(true), Some("op_a"), env_at_height(30_000));
    assert_eq!(after.len(), 2);
    assert_eq!(after[0].spender, "op_b");

    // A revoked grant is gone; revoking it again stays a no-op.
    for _ in 0..2 {
        execute::<Extension, Empty, CustomError>(
            &mut state,
            mock_env(),
            info(A),
            ExecuteMsg::RevokeAll {
                operator: "op_b".to_string(),
            },
        )
        .unwrap();
    }
    let left = ops(&state, Some(true), None, env_at_height(30_000));
    assert_eq!(left.len(), 2);
    assert_eq!(left[0].spender, "op_a");
    assert_eq!(left[1].spender, "op_c");
}

#[test]
fn approval_query_owner_and_misses() {
    let mut state: State<Extension> = State::new();
    init(&mut state, A);
    mint(&mut state, B, "1");

    // The owner is reported as holding a never-expiring approval on itself.
    let owner_approval = query::<Extension, Empty>(
        &state,
        mock_env(),
        QueryMsg::Approval {
            token_id: "1".to_string(),
            spender: B.to_string(),
            include_expired: None,
        },
    )
    .unwrap();
    assert_eq!(
        owner_approval,
        QueryResponse::Approval(ApprovalResponse {
            approval: Approval {
                spender: B.to_string(),
                expires: Expiration::Never,
            }
        })
    );

    // A spender with no entry is a miss.
    let err = query::<Extension, Empty>(
        &state,
        mock_env(),
        QueryMsg::Approval {
            token_id: "1".to_string(),
            spender: C.to_string(),
            include_expired: None,
        },
    )
    .unwrap_err();
    assert!(matches!(err, StdError::NotFound { .. }));

    // An expired entry is a miss unless expired entries were asked for.
    execute::<Extension, Empty, CustomError>(
        &mut state,
        mock_env(),
        info(B),
        ExecuteMsg::Approve {
            spender: C.to_string(),
            token_id: "1".to_string(),
            expires: Some(Expiration::AtHeight(20_000)),
        },
    )
    .unwrap();
    let err = query::<Extension, Empty>(
        &state,
        env_at_height(30_000),
        QueryMsg::Approval {
            token_id: "1".to_string(),
            spender: C.to_string(),
            include_expired: None,
        },
    )
    .unwrap_err();
    assert!(matches!(err, StdError::NotFound { .. }));
    let found = query::<Extension, Empty>(
        &state,
        env_at_height(30_000),
        QueryMsg::Approval {
            token_id: "1".to_string(),
            spender: C.to_string(),
            include_expired: Some(true),
        },
    )
    .unwrap();
    assert_eq!(
        found,
        QueryResponse::Approval(ApprovalResponse {
            approval: Approval {
                spender: C.to_string(),
                expires: Expiration::AtHeight(20_000),
            }
        })
    );
}

#[test]
fn revoke_missing_spender_is_no_op() {
    let mut state: State<Extension> = State::new();
    init(&mut state, A);
    mint(&mut state, A, "1");

    execute::<Extension, Empty, CustomError>(
        &mut state,
        mock_env(),
        info(A),
        ExecuteMsg::Revoke {
            spender: B.to_string(),
            token_id: "1".to_string(),
        },
    )
    .unwrap();
}

#[test]
fn transfer_of_missing_token_is_not_found() {
    let mut state: State<Extension> = State::new();
    init(&mut state, A);

    let err = execute::<Extension, Empty, CustomError>(
        &mut state,
        mock_env(),
        info(A),
        ExecuteMsg::TransferNft {
            recipient: B.to_string(),
            token_id: "1".to_string(),
        },
    )
    .unwrap_err();
    assert!(matches!(err, ContractError::Std(StdError::NotFound { .. })));
}

#[test]
fn burn_allowed_for_spender_and_operator() {
    let mut state: State<Extension> = State::new();
    init(&mut state, A);

    // An approved spender may burn.
    mint(&mut state, A, "1");
    execute::<Extension, Empty, CustomError>(
        &mut state,
        mock_env(),
        info(A),
        ExecuteMsg::Approve {
            spender: B.to_string(),
            token_id: "1".to_string(),
            expires: None,
        },
    )
    .unwrap();
    execute::<Extension, Empty, CustomError>(
        &mut state,
        mock_env(),
        info(B),
        ExecuteMsg::Burn {
            token_id: "1".to_string(),
        },
    )
    .unwrap();

    // An operator of the owner may burn.
    mint(&mut state, A, "2");
    execute::<Extension, Empty, CustomError>(
        &mut state,
        mock_env(),
        info(A),
        ExecuteMsg::ApproveAll {
            operator: C.to_string(),
            expires: None,
        },
    )
    .unwrap();
    execute::<Extension, Empty, CustomError>(
        &mut state,
        mock_env(),
        info(C),
        ExecuteMsg::Burn {
            token_id: "2".to_string(),
        },
    )
    .unwrap();

    // A stranger may not.
    mint(&mut state, A, "3");
    let err = execute::<Extension, Empty, CustomError>(
        &mut state,
        mock_env(),
        info(B),
        ExecuteMsg::Burn {
            token_id: "3".to_string(),
        },
    )
    .unwrap_err();
    assert_eq!(err, ContractError::Unauthorized {});
}

#[test]
fn send_nft_carries_payload_and_message() {
    let mut state: State<Extension> = State::new();
    init(&mut state, A);
    mint(&mut state, A, "1");

    let res = execute::<Extension, Empty, CustomError>(
        &mut state,
        mock_env(),
        info(A),
        ExecuteMsg::SendNft {
            contract: B.to_string(),
            token_id: "1".to_string(),
            msg: cw721_simple::msg::Binary(vec![7, 8, 9]),
        },
    )
    .unwrap();

    assert_eq!(res.messages.len(), 1);
    assert_eq!(res.messages[0].contract, B);
    assert_eq!(res.messages[0].msg.sender, A);
    assert_eq!(res.messages[0].msg.token_id, "1");
    assert_eq!(res.messages[0].msg.msg, cw721_simple::msg::Binary(vec![7, 8, 9]));
}

#[test]
fn instantiate_returns_empty_response() {
    let mut state: State<Extension> = State::new();
    let res = instantiate::<Extension, CustomError>(
        &mut state,
        &mock_env(),
        &info(A),
        InstantiateMsg {
            name: "registry".to_string(),
            symbol: "reg".to_string(),
            minter: A.to_string(),
        },
    )
    .unwrap();
    assert_eq!(res.attributes, vec![]);
    assert_eq!(res.messages, vec![]);

    // The extension command passes through with an empty response too.
    let res = execute::<Extension, Empty, CustomError>(
        &mut state,
        mock_env(),
        info(A),
        ExecuteMsg::Extension { msg: Empty {} },
    )
    .unwrap();
    assert_eq!(res.attributes, vec![]);

    // So does the extension query, answering the empty payload.
    let res = query::<Extension, Empty>(
        &state,
        mock_env(),
        QueryMsg::Extension { msg: Empty {} },
    )
    .unwrap();
    assert_eq!(
        res,
        QueryResponse::Extension(cw721_simple::msg::Binary(vec![]))
    );
}

#[test]
fn tokens_by_owner_only_lists_that_owner() {
    let mut state: State<Extension> = State::new();
    init(&mut state, A);
    mint(&mut state, A, "1");
    mint(&mut state, B, "2");
    mint(&mut state, A, "3");

    let owner_tokens = |owner: &str| match query::<Extension, Empty>(
        &state,
        mock_env(),
        QueryMsg::Tokens {
            owner: owner.to_string(),
            start_after: None,
            limit: None,
        },
    )
    .unwrap()
    {
        QueryResponse::Tokens(TokensResponse { tokens }) => tokens,
        other => panic!("unexpected answer: {:?}", other),
    };

    assert_eq!(owner_tokens(A), vec!["1".to_string(), "3".to_string()]);
    assert_eq!(owner_tokens(B), vec!["2".to_string()]);
    assert_eq!(owner_tokens(C), Vec::<String>::new());
}
