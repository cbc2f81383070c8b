use cw721_simple::contract::{execute, instantiate, query};
use cw721_simple::error::{ContractError, CustomError};
use cw721_simple::expiration::{BlockInfo, Env, Expiration};
use cw721_simple::msg::{
    AllNftInfoResponse, Approval, ApprovalResponse, ApprovalsResponse, Binary,
    ContractInfoResponse, Empty, ExecuteMsg, InstantiateMsg, MessageInfo, MintMsg,
    MinterResponse, NftInfoResponse, NumTokensResponse, OperatorsResponse, OwnerOfResponse,
    QueryMsg, QueryResponse, TokensResponse,
};
use cw721_simple::response::{attr, Response};
use cw721_simple::state::State;

const ADDR1: &str = "juno18zfp9u7zxg3gel4r3txa2jqxme7jkw7d972flm";
const ADDR2: &str = "osmo18zfp9u7zxg3gel4r3txa2jqxme7jkw7dmh6zw4";

type Extension = Option<Empty>;

fn mock_env() -> Env {
    Env {
        block: BlockInfo {
            height: 12_345,
            time: 1_571_797_419_879_305_533,
        },
    }
}

fn mock_info(sender: &str) -> MessageInfo {
    MessageInfo {
        sender: sender.to_string(),
    }
}

fn init(state: &mut State<Extension>) {
    instantiate::<Extension, CustomError>(
        state,
        &mock_env(),
        &mock_info(ADDR1),
        InstantiateMsg {
            name: "cw721-contract".to_string(),
            symbol: "cw721".to_string(),
            minter: ADDR1.to_string(),
        },
    )
    .unwrap();
}

fn mint(
    state: &mut State<Extension>,
    owner: &str,
    token_id: &str,
) -> Result<Response, ContractError<CustomError>> {
    let execute_mint_msg = ExecuteMsg::<Extension, Empty>::Mint(MintMsg::<Extension> {
        token_id: token_id.to_string(),
        owner: owner.to_string(),
        token_uri: None,
        extension: None,
    });

    execute::<Extension, Empty, CustomError>(state, mock_env(), mock_info(ADDR1), execute_mint_msg)
}

fn approve(
    state: &mut State<Extension>,
    sender: &str,
    spender: &str,
) -> Result<Response, ContractError<CustomError>> {
    let valid_approve_msg = ExecuteMsg::Approve {
        spender: spender.to_string(),
        token_id: "1".to_string(),
        expires: Some(Expiration::AtHeight(50000)),
    };

    execute::<Extension, Empty, CustomError>(
        state,
        mock_env(),
        mock_info(sender),
        valid_approve_msg,
    )
}

fn transfer_nft(
    state: &mut State<Extension>,
    sender: &str,
    recipient: &str,
) -> Result<Response, ContractError<CustomError>> {
    let transfer_nft_msg = ExecuteMsg::<Extension, Empty>::TransferNft {
        recipient: recipient.to_string(),
        token_id: "1".to_string(),
    };

    execute::<Extension, Empty, CustomError>(
        state,
        mock_env(),
        mock_info(sender),
        transfer_nft_msg,
    )
}

#[test]
fn test_execute_mint() {
    let mut state: State<Extension> = State::new();

    init(&mut state);
    let res = mint(&mut state, ADDR1, "1").unwrap();
    mint(&mut state, ADDR1, "2").unwrap();

    let token_1 = state.get_token("1").unwrap();

    assert_eq!(token_1.owner, ADDR1);
    assert_eq!(token_1.extension, None);
    assert_eq!(
        res.attributes,
        [
            attr("action", "mint"),
            attr("minter", ADDR1),
            attr("owner", ADDR1),
            attr("token_id", "1"),
        ]
    );

    let num_tokens_query_msg = QueryMsg::<Empty>::NumTokens {};
    let num_tokens_query_res = query::<Extension, Empty>(&state, mock_env(), num_tokens_query_msg)
        .unwrap();
    assert_eq!(
        num_tokens_query_res,
        QueryResponse::NumTokens(NumTokensResponse { count: 2 })
    );
}

#[test]
fn test_approve() {
    let mut state: State<Extension> = State::new();

    init(&mut state);
    mint(&mut state, ADDR1, "1").unwrap();
    let valid_res = approve(&mut state, ADDR1, ADDR2).unwrap();

    assert_eq!(
        valid_res.attributes,
        [
            attr("action", "approve"),
            attr("sender", ADDR1),
            attr("spender", ADDR2),
            attr("token_id", "1"),
        ]
    );

    let query_approval_msg = QueryMsg::<Empty>::Approval {
        token_id: "1".to_string(),
        spender: ADDR2.to_string(),
        include_expired: None,
    };

    let query_approval_res = query::<Extension, Empty>(&state, mock_env(), query_approval_msg)
        .unwrap();
    assert_eq!(
        query_approval_res,
        QueryResponse::Approval(ApprovalResponse {
            approval: Approval {
                spender: ADDR2.to_string(),
                expires: Expiration::AtHeight(50000),
            }
        })
    );

    let query_approvals_msg = QueryMsg::<Empty>::Approvals {
        token_id: "1".to_string(),
        include_expired: Some(true),
    };

    let approvals_res = query::<Extension, Empty>(&state, mock_env(), query_approvals_msg)
        .unwrap();
    assert_eq!(
        approvals_res,
        QueryResponse::Approvals(ApprovalsResponse {
            approvals: vec![Approval {
                spender: ADDR2.to_string(),
                expires: Expiration::AtHeight(50000),
            }]
        })
    );

    let expired_approve_msg = ExecuteMsg::<Extension, Empty>::Approve {
        spender: ADDR2.to_string(),
        token_id: "1".to_string(),
        expires: Some(Expiration::AtHeight(100)),
    };

    let invalid_res =
        execute::<Extension, Empty, CustomError>(
            &mut state,
            mock_env(),
            mock_info(ADDR1),
            expired_approve_msg,
        )
        .unwrap_err();
    assert_eq!(invalid_res, ContractError::Expired {});

    // Unauthorized approve
    let unauthorized_res = approve(&mut state, ADDR2, ADDR2).unwrap_err();
    assert_eq!(unauthorized_res, ContractError::Unauthorized {});
}

#[test]
fn test_revoke() {
    let mut state: State<Extension> = State::new();

    init(&mut state);
    mint(&mut state, ADDR1, "1").unwrap();
    approve(&mut state, ADDR1, ADDR2).unwrap();

    let revoke_msg = ExecuteMsg::<Extension, Empty>::Revoke {
        spender: ADDR1.to_string(),
        token_id: "1".to_string(),
    };

    let revoke_res =
        execute::<Extension, Empty, CustomError>(&mut state, mock_env(), mock_info(ADDR1), revoke_msg)
            .unwrap();
    assert_eq!(
        revoke_res.attributes,
        [
            attr("action", "revoke"),
            attr("sender", ADDR1),
            attr("spender", ADDR1),
            attr("token_id", "1"),
        ]
    );
}

#[test]
fn test_approve_all() {
    let mut state: State<Extension> = State::new();

    init(&mut state);
    mint(&mut state, ADDR1, "1").unwrap();

    let approve_all_msg = ExecuteMsg::<Extension, Empty>::ApproveAll {
        operator: ADDR2.to_string(),
        expires: Some(Expiration::AtHeight(50000)),
    };

    let approve_all_res = execute::<Extension, Empty, CustomError>(
        &mut state,
        mock_env(),
        mock_info(ADDR1),
        approve_all_msg,
    )
    .unwrap();
    assert_eq!(
        approve_all_res.attributes,
        [
            attr("action", "approve_all"),
            attr("sender", ADDR1),
            attr("operator", ADDR2),
        ]
    );

    let all_operators_query_msg = QueryMsg::<Empty>::AllOperators {
        owner: ADDR1.to_string(),
        include_expired: None,
        start_after: None,
        limit: None,
    };

    let owner_of_res = query::<Extension, Empty>(&state, mock_env(), all_operators_query_msg)
        .unwrap();
    assert_eq!(
        owner_of_res,
        QueryResponse::Operators(OperatorsResponse {
            operators: vec![Approval {
                spender: ADDR2.to_string(),
                expires: Expiration::AtHeight(50000),
            }]
        })
    );

    let expired_approve_all_msg = ExecuteMsg::<Extension, Empty>::ApproveAll {
        operator: ADDR2.to_string(),
        expires: Some(Expiration::AtHeight(10)),
    };

    let expired_approve_all_res = execute::<Extension, Empty, CustomError>(
        &mut state,
        mock_env(),
        mock_info(ADDR1),
        expired_approve_all_msg,
    )
    .unwrap_err();

    assert_eq!(expired_approve_all_res, ContractError::Expired {});
}

#[test]
fn test_revoke_all() {
    let mut state: State<Extension> = State::new();

    init(&mut state);
    mint(&mut state, ADDR1, "1").unwrap();
    approve(&mut state, ADDR1, ADDR2).unwrap();

    let revoke_all_msg = ExecuteMsg::<Extension, Empty>::RevokeAll {
        operator: ADDR2.to_string(),
    };

    let revoke_all_res = execute::<Extension, Empty, CustomError>(
        &mut state,
        mock_env(),
        mock_info(ADDR1),
        revoke_all_msg,
    )
    .unwrap();

    assert_eq!(
        revoke_all_res.attributes,
        [
            attr("action", "revoke_all"),
            attr("sender", ADDR1),
            attr("operator", ADDR2),
        ]
    );
}

#[test]
fn test_transfer_nft() {
    let mut state: State<Extension> = State::new();

    init(&mut state);
    mint(&mut state, ADDR1, "1").unwrap();
    let transfer_nft_res = transfer_nft(&mut state, ADDR1, ADDR2).unwrap();

    assert_eq!(
        transfer_nft_res.attributes,
        [
            attr("action", "transfer_nft"),
            attr("sender", ADDR1),
            attr("recipient", ADDR2),
            attr("token_id", "1"),
        ]
    );

    let owner_of_query_msg = QueryMsg::<Empty>::OwnerOf {
        token_id: "1".to_string(),
        include_expired: None,
    };

    let owner_of_res = query::<Extension, Empty>(&state, mock_env(), owner_of_query_msg).unwrap();
    assert_eq!(
        owner_of_res,
        QueryResponse::OwnerOf(OwnerOfResponse {
            owner: ADDR2.to_string(),
            approvals: vec![],
        })
    );

    // ADDR1 is unauthorized
    let transfer_err = transfer_nft(&mut state, ADDR1, ADDR2).unwrap_err();
    assert_eq!(transfer_err, ContractError::Unauthorized {});

    mint(&mut state, ADDR2, "2").unwrap();

    let tokens_query_msg = QueryMsg::<Empty>::Tokens {
        owner: ADDR2.to_string(),
        start_after: None,
        limit: None,
    };

    let tokens_query_res = query::<Extension, Empty>(&state, mock_env(), tokens_query_msg)
        .unwrap();

    assert_eq!(
        tokens_query_res,
        QueryResponse::Tokens(TokensResponse {
            tokens: vec!["1".to_string(), "2".to_string()]
        })
    );
}

#[test]
fn test_approve_and_transfer() {
    let mut state: State<Extension> = State::new();

    init(&mut state);
    mint(&mut state, ADDR1, "1").unwrap();
    approve(&mut state, ADDR1, ADDR2).unwrap();
    transfer_nft(&mut state, ADDR2, ADDR2).unwrap();

    let all_tokens_query_msg = QueryMsg::<Empty>::AllTokens {
        start_after: None,
        limit: None,
    };

    let all_tokens_query_res = query::<Extension, Empty>(&state, mock_env(), all_tokens_query_msg)
        .unwrap();
    assert_eq!(
        all_tokens_query_res,
        QueryResponse::Tokens(TokensResponse {
            tokens: vec!["1".to_string()]
        })
    )
}

#[test]
fn test_send_nft() {
    let mut state: State<Extension> = State::new();
    let contract_addr = "cosmos2contract";

    init(&mut state);
    mint(&mut state, ADDR1, "1").unwrap();

    approve(&mut state, ADDR1, contract_addr).unwrap();

    let send_nft_msg = ExecuteMsg::<Extension, Empty>::SendNft {
        contract: contract_addr.to_string(),
        token_id: "1".to_string(),
        msg: Binary(vec![1, 2, 3]),
    };

    execute::<Extension, Empty, CustomError>(&mut state, mock_env(), mock_info(ADDR1), send_nft_msg)
        .unwrap();
}

#[test]
fn test_burn() {
    let mut state: State<Extension> = State::new();

    init(&mut state);
    mint(&mut state, ADDR1, "1").unwrap();
    approve(&mut state, ADDR1, ADDR2).unwrap();
    let burn_msg = ExecuteMsg::<Extension, Empty>::Burn {
        token_id: "1".to_string(),
    };

    execute::<Extension, Empty, CustomError>(
        &mut state,
        mock_env(),
        mock_info(ADDR1),
        burn_msg.clone(),
    )
    .unwrap();
    // Cannot burn same nft again
    execute::<Extension, Empty, CustomError>(&mut state, mock_env(), mock_info(ADDR1), burn_msg)
        .unwrap_err();
}

#[test]
fn query_contract_info() {
    let mut state: State<Extension> = State::new();
    init(&mut state);
    mint(&mut state, ADDR1, "1").unwrap();
    mint(&mut state, ADDR1, "2").unwrap();

    let contract_info_query_msg = QueryMsg::<Empty>::ContractInfo {};
    let contract_info_query_res =
        query::<Extension, Empty>(&state, mock_env(), contract_info_query_msg).unwrap();
    assert_eq!(
        contract_info_query_res,
        QueryResponse::ContractInfo(ContractInfoResponse {
            name: "cw721-contract".to_string(),
            symbol: "cw721".to_string(),
        })
    );

    let nft_info_query_msg = QueryMsg::<Empty>::NftInfo {
        token_id: "1".to_string(),
    };

    let nft_info_query_res = query::<Extension, Empty>(&state, mock_env(), nft_info_query_msg)
        .unwrap();
    assert_eq!(
        nft_info_query_res,
        QueryResponse::NftInfo(NftInfoResponse {
            token_uri: None,
            extension: None,
        })
    );

    approve(&mut state, ADDR1, ADDR2).unwrap();

    let all_nft_info_query_msg = QueryMsg::<Empty>::AllNftInfo {
        token_id: "1".to_string(),
        include_expired: Some(true),
    };

    let all_nft_info_query_res =
        query::<Extension, Empty>(&state, mock_env(), all_nft_info_query_msg).unwrap();

    assert_eq!(
        all_nft_info_query_res,
        QueryResponse::AllNftInfo(AllNftInfoResponse {
            access: OwnerOfResponse {
                owner: ADDR1.to_string(),
                approvals: vec![Approval {
                    spender: ADDR2.to_string(),
                    expires: Expiration::AtHeight(50000),
                }],
            },
            info: NftInfoResponse {
                token_uri: None,
                extension: None,
            },
        })
    )
}

#[test]
fn test_query_minter() {
    let mut state: State<Extension> = State::new();
    init(&mut state);

    let minter_query_msg = QueryMsg::<Empty>::Minter {};

    let minter_query_res = query::<Extension, Empty>(&state, mock_env(), minter_query_msg)
        .unwrap();
    assert_eq!(
        minter_query_res,
        QueryResponse::Minter(MinterResponse {
            minter: ADDR1.to_string()
        })
    );
}
