use dca_bot_pancakeswap_cw::contract::{
    can_execute, execute, get_job_id, instantiate, query, swap, Attribute, BlockInfo, Env,
    MessageInfo, Response,
};
use dca_bot_pancakeswap_cw::error::ContractError;
use dca_bot_pancakeswap_cw::msg::{ExecuteMsg, InstantiateMsg, PalomaMsg, QueryMsg};
use dca_bot_pancakeswap_cw::state::{dispatch_key, StorageError, Store, Timestamp};
use dca_bot_pancakeswap_cw::uint256::Uint256;

const SWAP_SELECTOR: [u8; 4] = [0xd9, 0x60, 0x73, 0xcf];
const SET_PALOMA_SELECTOR: [u8; 4] = [0x23, 0xfd, 0xe8, 0xe2];
const UPDATE_COMPASS_SELECTOR: [u8; 4] = [0x69, 0x74, 0xaf, 0x69];
const UPDATE_REFUND_WALLET_SELECTOR: [u8; 4] = [0xc9, 0x88, 0x56, 0xaa];
const UPDATE_FEE_SELECTOR: [u8; 4] = [0xfb, 0xd1, 0x59, 0x55];

fn at(seconds: u64) -> Env {
    Env { block: BlockInfo { time: Timestamp::from_seconds(seconds) } }
}

fn from(sender: &str) -> MessageInfo {
    MessageInfo { sender: sender.to_string() }
}

fn n(value: u128) -> Uint256 {
    Uint256::from_u128(value)
}

fn be32(value: u8) -> Vec<u8> {
    let mut word = vec![0u8; 32];
    word[31] = value;
    word
}

fn set_up(retry_delay: u64, job_id: &str) -> Store {
    let mut store = Store::new();
    let msg = InstantiateMsg { retry_delay, job_id: job_id.to_string() };
    instantiate(&mut store, at(0), from("owner"), msg).unwrap();
    store
}

fn swap_msg(swap_id: u128, amount_out_min: u128, number_trades: u128) -> ExecuteMsg {
    ExecuteMsg::Swap {
        swap_id: n(swap_id),
        amount_out_min: n(amount_out_min),
        number_trades: n(number_trades),
    }
}

fn logged(store: &Store, swap_id: u128, number_trades: u128) -> Option<Timestamp> {
    store.dispatch_log_get(&dispatch_key(&n(swap_id), &n(number_trades)))
}

fn action(name: &str) -> Vec<Attribute> {
    vec![Attribute { key: "action".to_string(), value: name.to_string() }]
}

#[test]
fn first_swap_is_accepted() {
    let mut store = set_up(60, "j");
    let response = execute(&mut store, at(1000), from("scheduler"), swap_msg(1, 100, 3)).unwrap();
    let mut payload = SWAP_SELECTOR.to_vec();
    payload.extend(be32(1));
    payload.extend(be32(100));
    assert_eq!(response.messages, vec![PalomaMsg { job_id: "j".to_string(), payload }]);
    assert_eq!(response.attributes, action("swap"));
    assert_eq!(logged(&store, 1, 3), Some(Timestamp::from_seconds(1000)));
}

#[test]
fn second_swap_within_cooldown_is_rejected() {
    let mut store = set_up(60, "j");
    execute(&mut store, at(1000), from("scheduler"), swap_msg(1, 100, 3)).unwrap();
    let result = execute(&mut store, at(1050), from("scheduler"), swap_msg(1, 100, 3));
    assert_eq!(result, Err(ContractError::AllPending));
    assert_eq!(logged(&store, 1, 3), Some(Timestamp::from_seconds(1000)));
}

#[test]
fn swap_after_cooldown_is_accepted() {
    let mut store = set_up(60, "j");
    execute(&mut store, at(1000), from("scheduler"), swap_msg(1, 100, 3)).unwrap();
    assert!(execute(&mut store, at(1050), from("scheduler"), swap_msg(1, 100, 3)).is_err());
    let response = execute(&mut store, at(1061), from("scheduler"), swap_msg(1, 100, 3)).unwrap();
    assert_eq!(response.messages.len(), 1);
    assert_eq!(response.messages[0].job_id, "j");
    assert_eq!(logged(&store, 1, 3), Some(Timestamp::from_seconds(1061)));
}

#[test]
fn different_number_trades_is_an_independent_key() {
    let mut store = set_up(60, "j");
    execute(&mut store, at(1000), from("scheduler"), swap_msg(1, 100, 3)).unwrap();
    let response = execute(&mut store, at(1005), from("scheduler"), swap_msg(1, 100, 4)).unwrap();
    assert_eq!(response.messages.len(), 1);
    assert_eq!(logged(&store, 1, 4), Some(Timestamp::from_seconds(1005)));
    assert_eq!(logged(&store, 1, 3), Some(Timestamp::from_seconds(1000)));
}

#[test]
fn different_swap_id_is_an_independent_key() {
    let mut store = set_up(60, "j");
    execute(&mut store, at(1000), from("scheduler"), swap_msg(1, 100, 3)).unwrap();
    execute(&mut store, at(1001), from("scheduler"), swap_msg(3, 100, 1)).unwrap();
    assert_eq!(logged(&store, 1, 3), Some(Timestamp::from_seconds(1000)));
    assert_eq!(logged(&store, 3, 1), Some(Timestamp::from_seconds(1001)));
    assert_eq!(logged(&store, 3, 3), None);
}

#[test]
fn update_fee_from_another_sender_is_unauthorized() {
    let mut store = set_up(60, "j");
    let result = execute(&mut store, at(1000), from("x"), ExecuteMsg::UpdateFee { fee: n(42) });
    assert_eq!(result, Err(ContractError::Unauthorized));
}

#[test]
fn update_compass_payload_is_selector_and_padded_address() {
    let mut store = set_up(60, "j");
    let msg = ExecuteMsg::UpdateCompass {
        new_compass: "0x0000000000000000000000000000000000000001".to_string(),
    };
    let response = execute(&mut store, at(1000), from("owner"), msg).unwrap();
    let mut payload = UPDATE_COMPASS_SELECTOR.to_vec();
    payload.extend(be32(1));
    assert_eq!(response.messages, vec![PalomaMsg { job_id: "j".to_string(), payload }]);
    assert_eq!(response.attributes, action("update_compass"));
}

#[test]
fn cooldown_ends_strictly_after_the_retry_delay() {
    let mut store = set_up(60, "j");
    execute(&mut store, at(1000), from("scheduler"), swap_msg(1, 100, 3)).unwrap();
    let result = execute(&mut store, at(1060), from("scheduler"), swap_msg(1, 100, 3));
    assert_eq!(result, Err(ContractError::AllPending));
    assert!(execute(&mut store, at(1061), from("scheduler"), swap_msg(1, 100, 3)).is_ok());
}

#[test]
fn cooldown_is_counted_in_nanoseconds() {
    let mut store = set_up(60, "j");
    let start = Timestamp::from_nanos(5);
    let env = Env { block: BlockInfo { time: start } };
    swap(&mut store, env, n(1), n(100), n(3)).unwrap();
    let edge = Env { block: BlockInfo { time: Timestamp::from_nanos(60_000_000_005) } };
    assert_eq!(swap(&mut store, edge, n(1), n(100), n(3)), Err(ContractError::AllPending));
    let after = Env { block: BlockInfo { time: Timestamp::from_nanos(60_000_000_006) } };
    assert!(swap(&mut store, after, n(1), n(100), n(3)).is_ok());
    assert_eq!(logged(&store, 1, 3), Some(Timestamp::from_nanos(60_000_000_006)));
}

#[test]
fn zero_retry_delay_still_needs_time_to_pass() {
    let mut store = set_up(0, "j");
    execute(&mut store, at(1000), from("scheduler"), swap_msg(1, 100, 3)).unwrap();
    let result = execute(&mut store, at(1000), from("scheduler"), swap_msg(1, 100, 3));
    assert_eq!(result, Err(ContractError::AllPending));
    assert!(execute(&mut store, at(1001), from("scheduler"), swap_msg(1, 100, 3)).is_ok());
}

#[test]
fn retry_delay_beyond_the_clock_keeps_the_trade_pending() {
    let mut store = set_up(u64::MAX, "j");
    execute(&mut store, at(1000), from("scheduler"), swap_msg(1, 100, 3)).unwrap();
    let end = Env { block: BlockInfo { time: Timestamp::from_nanos(u64::MAX) } };
    let result = execute(&mut store, end, from("scheduler"), swap_msg(1, 100, 3));
    assert_eq!(result, Err(ContractError::AllPending));
    assert_eq!(logged(&store, 1, 3), Some(Timestamp::from_seconds(1000)));
}

#[test]
fn rejected_swap_leaves_the_store_as_it_was() {
    let mut store = set_up(60, "j");
    execute(&mut store, at(1000), from("scheduler"), swap_msg(1, 100, 3)).unwrap();
    execute(&mut store, at(1001), from("scheduler"), swap_msg(2, 100, 3)).unwrap();
    let result = execute(&mut store, at(1030), from("scheduler"), swap_msg(1, 7, 3));
    assert_eq!(result, Err(ContractError::AllPending));
    assert_eq!(logged(&store, 1, 3), Some(Timestamp::from_seconds(1000)));
    assert_eq!(logged(&store, 2, 3), Some(Timestamp::from_seconds(1001)));
    assert_eq!(store.retry_delay_get(), Ok(60));
    assert_eq!(get_job_id(&store).unwrap().job_id, "j");
}

#[test]
fn amount_out_min_is_no_part_of_the_key() {
    let mut store = set_up(60, "j");
    execute(&mut store, at(1000), from("scheduler"), swap_msg(1, 100, 3)).unwrap();
    let result = execute(&mut store, at(1001), from("scheduler"), swap_msg(1, 999, 3));
    assert_eq!(result, Err(ContractError::AllPending));
}

#[test]
fn swap_is_open_to_any_sender() {
    let mut store = set_up(60, "j");
    assert!(execute(&mut store, at(1000), from("owner"), swap_msg(1, 100, 3)).is_ok());
    assert!(execute(&mut store, at(1000), from("stranger"), swap_msg(1, 100, 4)).is_ok());
}

#[test]
fn instantiate_records_owner_job_and_delay() {
    let mut store = Store::new();
    let msg = InstantiateMsg { retry_delay: 60, job_id: "j".to_string() };
    let response = instantiate(&mut store, at(7), from("O"), msg).unwrap();
    assert_eq!(
        response,
        Response {
            messages: vec![],
            attributes: vec![
                Attribute { key: "method".to_string(), value: "instantiate".to_string() },
                Attribute { key: "owner".to_string(), value: "O".to_string() },
                Attribute { key: "job_id".to_string(), value: "j".to_string() },
            ],
        }
    );
    let state = store.identity_get().unwrap();
    assert_eq!(state.owner, "O");
    assert_eq!(state.job_id, "j");
    assert_eq!(store.retry_delay_get(), Ok(60));
    assert_eq!(logged(&store, 1, 3), None);
}

#[test]
fn requests_before_instantiate_find_no_state() {
    let mut store = Store::new();
    let not_found = Err(ContractError::Storage(StorageError::NotFound));
    assert_eq!(execute(&mut store, at(1), from("a"), swap_msg(1, 2, 3)), not_found);
    assert_eq!(execute(&mut store, at(1), from("a"), ExecuteMsg::SetPaloma {}), not_found);
    assert_eq!(execute(&mut store, at(1), from("a"), ExecuteMsg::UpdateFee { fee: n(1) }), not_found);
    let msg = ExecuteMsg::UpdateCompass { new_compass: "not an address".to_string() };
    assert!(can_execute(&store, &from("a"), &msg));
    assert_eq!(execute(&mut store, at(1), from("a"), msg), not_found);
    assert_eq!(query(&store, at(1), QueryMsg::GetJobId {}), Err(StorageError::NotFound));
    assert_eq!(logged(&store, 1, 3), None);
}

#[test]
fn set_paloma_payload_is_the_selector_alone() {
    let mut store = set_up(60, "job-7");
    let response = execute(&mut store, at(1), from("owner"), ExecuteMsg::SetPaloma {}).unwrap();
    let payload = SET_PALOMA_SELECTOR.to_vec();
    assert_eq!(response.messages, vec![PalomaMsg { job_id: "job-7".to_string(), payload }]);
    assert_eq!(response.attributes, action("set_paloma"));
}

#[test]
fn update_refund_wallet_payload_is_selector_and_padded_address() {
    let mut store = set_up(60, "j");
    let msg = ExecuteMsg::UpdateRefundWallet {
        new_refund_wallet: "0xDeaDbeefdEAdbeefdEadbEEFdeadbeEFdEaDbeeF".to_string(),
    };
    let response = execute(&mut store, at(1), from("owner"), msg).unwrap();
    let mut payload = UPDATE_REFUND_WALLET_SELECTOR.to_vec();
    payload.extend([0u8; 12]);
    for _ in 0..5 {
        payload.extend([0xde, 0xad, 0xbe, 0xef]);
    }
    assert_eq!(response.messages, vec![PalomaMsg { job_id: "j".to_string(), payload }]);
    assert_eq!(response.attributes, action("update_refund_wallet"));
}

#[test]
fn update_fee_payload_is_selector_and_fee() {
    let mut store = set_up(60, "j");
    let msg = ExecuteMsg::UpdateFee { fee: n(42) };
    let response = execute(&mut store, at(1), from("owner"), msg).unwrap();
    let mut payload = UPDATE_FEE_SELECTOR.to_vec();
    payload.extend(be32(42));
    assert_eq!(response.messages, vec![PalomaMsg { job_id: "j".to_string(), payload }]);
    assert_eq!(response.attributes, action("update_fee"));
}

#[test]
fn every_owner_request_is_closed_to_others() {
    let address = "0x0000000000000000000000000000000000000001".to_string();
    let requests = vec![
        ExecuteMsg::SetPaloma {},
        ExecuteMsg::UpdateCompass { new_compass: address.clone() },
        ExecuteMsg::UpdateRefundWallet { new_refund_wallet: address },
        ExecuteMsg::UpdateFee { fee: n(42) },
    ];
    for msg in requests {
        let mut store = set_up(60, "j");
        execute(&mut store, at(1000), from("owner"), swap_msg(1, 100, 3)).unwrap();
        assert_eq!(execute(&mut store, at(1001), from("x"), msg), Err(ContractError::Unauthorized));
        assert_eq!(logged(&store, 1, 3), Some(Timestamp::from_seconds(1000)));
        assert_eq!(store.identity_get().unwrap().owner, "owner");
    }
}

#[test]
fn owner_requests_leave_the_log_alone() {
    let mut store = set_up(60, "j");
    execute(&mut store, at(1000), from("owner"), swap_msg(1, 100, 3)).unwrap();
    execute(&mut store, at(2000), from("owner"), ExecuteMsg::SetPaloma {}).unwrap();
    execute(&mut store, at(2000), from("owner"), ExecuteMsg::UpdateFee { fee: n(1) }).unwrap();
    assert_eq!(logged(&store, 1, 3), Some(Timestamp::from_seconds(1000)));
}

#[test]
fn every_message_goes_to_the_job_of_the_instance() {
    let mut store = set_up(5, "relay-job");
    let address = "0x0000000000000000000000000000000000000001".to_string();
    let requests = vec![
        swap_msg(1, 100, 3),
        ExecuteMsg::SetPaloma {},
        ExecuteMsg::UpdateCompass { new_compass: address.clone() },
        ExecuteMsg::UpdateRefundWallet { new_refund_wallet: address },
        ExecuteMsg::UpdateFee { fee: n(42) },
    ];
    for msg in requests {
        let response = execute(&mut store, at(1000), from("owner"), msg).unwrap();
        assert_eq!(response.messages.len(), 1);
        assert_eq!(response.messages[0].job_id, "relay-job");
    }
    assert_eq!(get_job_id(&store).unwrap().job_id, "relay-job");
}

#[test]
fn query_returns_the_job() {
    let store = set_up(60, "j");
    assert_eq!(query(&store, at(1), QueryMsg::GetJobId {}).unwrap().job_id, "j");
}

#[test]
fn malformed_address_is_caught_before_execute() {
    let store = set_up(60, "j");
    let bad = ExecuteMsg::UpdateCompass { new_compass: "0x1234".to_string() };
    assert!(!can_execute(&store, &from("owner"), &bad));
    assert!(can_execute(&store, &from("x"), &bad));
    let bad = ExecuteMsg::UpdateRefundWallet { new_refund_wallet: "compass".to_string() };
    assert!(!can_execute(&store, &from("owner"), &bad));
    let good = ExecuteMsg::UpdateCompass {
        new_compass: "0x0000000000000000000000000000000000000001".to_string(),
    };
    assert!(can_execute(&store, &from("owner"), &good));
    assert!(can_execute(&store, &from("owner"), &swap_msg(1, 2, 3)));
    assert!(can_execute(&store, &from("owner"), &ExecuteMsg::SetPaloma {}));
}

#[test]
fn malformed_address_from_another_sender_is_unauthorized() {
    let mut store = set_up(60, "j");
    let bad = ExecuteMsg::UpdateCompass { new_compass: "0x1234".to_string() };
    assert_eq!(execute(&mut store, at(1), from("x"), bad), Err(ContractError::Unauthorized));
}

#[test]
fn same_request_gives_the_same_payload() {
    let mut first = set_up(60, "a");
    let mut second = set_up(5, "b");
    let one = execute(&mut first, at(1000), from("p"), swap_msg(1, 100, 3)).unwrap();
    let two = execute(&mut second, at(77), from("q"), swap_msg(1, 100, 3)).unwrap();
    assert_eq!(one.messages[0].payload, two.messages[0].payload);
}

#[test]
fn payload_lengths_follow_the_argument_counts() {
    let mut store = set_up(60, "j");
    let address = "0x0000000000000000000000000000000000000001".to_string();
    let requests = vec![
        (swap_msg(1, 100, 3), 68),
        (ExecuteMsg::SetPaloma {}, 4),
        (ExecuteMsg::UpdateCompass { new_compass: address.clone() }, 36),
        (ExecuteMsg::UpdateRefundWallet { new_refund_wallet: address }, 36),
        (ExecuteMsg::UpdateFee { fee: n(42) }, 36),
    ];
    for (msg, length) in requests {
        let response = execute(&mut store, at(1000), from("owner"), msg).unwrap();
        assert_eq!(response.messages[0].payload.len(), length);
    }
}
