use relayer_refund::call::{Call, SubCall};
use relayer_refund::extension::RefundRelayerForMessagesFromParachain;
use relayer_refund::reward::{RewardLedger, TransactionFeeCalculation, WeightAndLengthFee};
use relayer_refund::state::ChainState;
use relayer_refund::types::{
    AccountId, CallType, DispatchError, DispatchInfo, ExpectedParachainState,
    ExpectedRelayChainState, LaneId, MessageNonce, MessagesState, ParaId, PostDispatchInfo,
    PreDispatchData, RelayBlockNumber, RewardAmount, ValidityError,
};

const TEST_PARACHAIN: ParaId = 1000;
const TEST_LANE_ID: LaneId = 1;

fn relayer_account_at_this_chain() -> AccountId {
    0
}

fn test_extension() -> RefundRelayerForMessagesFromParachain {
    RefundRelayerForMessagesFromParachain { parachain_id: TEST_PARACHAIN, lane_id: TEST_LANE_ID }
}

fn initialize_environment(
    best_relay_header_number: RelayBlockNumber,
    parachain_head_at_relay_header_number: RelayBlockNumber,
    best_delivered_message: MessageNonce,
) -> ChainState {
    ChainState {
        best_relay_block_number: Some(best_relay_header_number),
        parachain_heads: vec![(TEST_PARACHAIN, parachain_head_at_relay_header_number)],
        lanes: vec![(TEST_LANE_ID, best_delivered_message)],
    }
}

fn uninitialized_environment() -> ChainState {
    ChainState { best_relay_block_number: None, parachain_heads: vec![], lanes: vec![] }
}

fn submit_relay_header_call(relay_header_number: RelayBlockNumber) -> SubCall {
    SubCall::SubmitFinalityProof { finality_target_number: relay_header_number }
}

fn submit_parachain_head_call(
    parachain_head_at_relay_header_number: RelayBlockNumber,
) -> SubCall {
    SubCall::SubmitParachainHeads {
        at_relay_block_number: parachain_head_at_relay_header_number,
        parachains: vec![TEST_PARACHAIN],
    }
}

fn message_delivery_call(best_message: MessageNonce) -> SubCall {
    SubCall::ReceiveMessagesProof {
        lane: TEST_LANE_ID,
        nonces_start: best_message,
        nonces_end: best_message,
    }
}

fn parachain_finality_and_delivery_batch_call(
    parachain_head_at_relay_header_number: RelayBlockNumber,
    best_message: MessageNonce,
) -> Call {
    Call::BatchAll {
        calls: vec![
            submit_parachain_head_call(parachain_head_at_relay_header_number),
            message_delivery_call(best_message),
        ],
    }
}

fn all_finality_and_delivery_batch_call(
    relay_header_number: RelayBlockNumber,
    parachain_head_at_relay_header_number: RelayBlockNumber,
    best_message: MessageNonce,
) -> Call {
    Call::BatchAll {
        calls: vec![
            submit_relay_header_call(relay_header_number),
            submit_parachain_head_call(parachain_head_at_relay_header_number),
            message_delivery_call(best_message),
        ],
    }
}

fn all_finality_pre_dispatch_data() -> PreDispatchData {
    PreDispatchData {
        relayer: relayer_account_at_this_chain(),
        call_type: CallType::AllFinalityAndDelivery(
            ExpectedRelayChainState { best_block_number: 200 },
            ExpectedParachainState { at_relay_block_number: 200 },
            MessagesState { best_nonce: 100 },
        ),
    }
}

fn parachain_finality_pre_dispatch_data() -> PreDispatchData {
    PreDispatchData {
        relayer: relayer_account_at_this_chain(),
        call_type: CallType::ParachainFinalityAndDelivery(
            ExpectedParachainState { at_relay_block_number: 200 },
            MessagesState { best_nonce: 100 },
        ),
    }
}

fn delivery_pre_dispatch_data() -> PreDispatchData {
    PreDispatchData {
        relayer: relayer_account_at_this_chain(),
        call_type: CallType::Delivery(MessagesState { best_nonce: 100 }),
    }
}

fn run_validate(call: Call, state: &ChainState) -> Result<(), ValidityError> {
    test_extension().validate(&call, state)
}

fn run_pre_dispatch(
    call: Call,
    state: &ChainState,
) -> Result<Option<PreDispatchData>, ValidityError> {
    test_extension().pre_dispatch(relayer_account_at_this_chain(), &call, state)
}

fn dispatch_info() -> DispatchInfo {
    DispatchInfo { weight: 1_000_000_000_000 }
}

fn post_dispatch_info() -> PostDispatchInfo {
    PostDispatchInfo { actual_weight: None }
}

fn run_post_dispatch(
    pre_dispatch_data: Option<PreDispatchData>,
    dispatch_result: Result<(), DispatchError>,
    state: &ChainState,
    ledger: &mut RewardLedger,
) {
    let post_dispatch_result = test_extension().post_dispatch::<WeightAndLengthFee>(
        Some(pre_dispatch_data),
        &dispatch_info(),
        &post_dispatch_info(),
        1024,
        &dispatch_result,
        state,
        ledger,
    );
    assert_eq!(post_dispatch_result, Ok(()));
}

fn expected_reward() -> RewardAmount {
    WeightAndLengthFee::compute_fee(&dispatch_info(), &post_dispatch_info(), 1024, 0)
}

#[test]
fn validate_allows_non_obsolete_transactions() {
    let state = initialize_environment(100, 100, 100);

    assert_eq!(run_validate(Call::Single(message_delivery_call(200)), &state), Ok(()));

    assert_eq!(
        run_validate(parachain_finality_and_delivery_batch_call(200, 200), &state),
        Ok(()),
    );

    assert_eq!(
        run_validate(all_finality_and_delivery_batch_call(200, 200, 200), &state),
        Ok(()),
    );
}

#[test]
fn ext_rejects_batch_with_obsolete_relay_chain_header() {
    let state = initialize_environment(100, 100, 100);

    assert_eq!(
        run_pre_dispatch(all_finality_and_delivery_batch_call(100, 200, 200), &state),
        Err(ValidityError::Stale),
    );

    assert_eq!(
        run_validate(all_finality_and_delivery_batch_call(100, 200, 200), &state),
        Err(ValidityError::Stale),
    );
}

#[test]
fn ext_rejects_batch_with_obsolete_parachain_head() {
    let state = initialize_environment(100, 100, 100);

    assert_eq!(
        run_pre_dispatch(all_finality_and_delivery_batch_call(101, 100, 200), &state),
        Err(ValidityError::Stale),
    );

    assert_eq!(
        run_pre_dispatch(parachain_finality_and_delivery_batch_call(100, 200), &state),
        Err(ValidityError::Stale),
    );

    assert_eq!(
        run_validate(all_finality_and_delivery_batch_call(101, 100, 200), &state),
        Err(ValidityError::Stale),
    );

    assert_eq!(
        run_validate(parachain_finality_and_delivery_batch_call(100, 200), &state),
        Err(ValidityError::Stale),
    );
}

#[test]
fn ext_rejects_batch_with_obsolete_messages() {
    let state = initialize_environment(100, 100, 100);

    assert_eq!(
        run_pre_dispatch(all_finality_and_delivery_batch_call(200, 200, 100), &state),
        Err(ValidityError::Stale),
    );

    assert_eq!(
        run_pre_dispatch(parachain_finality_and_delivery_batch_call(200, 100), &state),
        Err(ValidityError::Stale),
    );

    assert_eq!(
        run_validate(all_finality_and_delivery_batch_call(200, 200, 100), &state),
        Err(ValidityError::Stale),
    );

    assert_eq!(
        run_validate(parachain_finality_and_delivery_batch_call(200, 100), &state),
        Err(ValidityError::Stale),
    );
}

#[test]
fn pre_dispatch_parses_batch_with_relay_chain_and_parachain_headers() {
    let state = initialize_environment(100, 100, 100);

    assert_eq!(
        run_pre_dispatch(all_finality_and_delivery_batch_call(200, 200, 200), &state),
        Ok(Some(all_finality_pre_dispatch_data())),
    );
}

#[test]
fn pre_dispatch_parses_batch_with_parachain_header() {
    let state = initialize_environment(100, 100, 100);

    assert_eq!(
        run_pre_dispatch(parachain_finality_and_delivery_batch_call(200, 200), &state),
        Ok(Some(parachain_finality_pre_dispatch_data())),
    );
}

#[test]
fn pre_dispatch_fails_to_parse_batch_with_multiple_parachain_headers() {
    let state = initialize_environment(100, 100, 100);

    let call = Call::BatchAll {
        calls: vec![
            SubCall::SubmitParachainHeads {
                at_relay_block_number: 100,
                parachains: vec![TEST_PARACHAIN, TEST_PARACHAIN + 1],
            },
            message_delivery_call(200),
        ],
    };

    assert_eq!(run_pre_dispatch(call, &state), Ok(None));
}

#[test]
fn pre_dispatch_parses_message_delivery_transaction() {
    let state = initialize_environment(100, 100, 100);

    assert_eq!(
        run_pre_dispatch(Call::Single(message_delivery_call(200)), &state),
        Ok(Some(delivery_pre_dispatch_data())),
    );
}

#[test]
fn post_dispatch_ignores_unknown_transaction() {
    let state = uninitialized_environment();
    let mut ledger = RewardLedger::new();

    run_post_dispatch(None, Ok(()), &state, &mut ledger);

    assert_eq!(ledger, RewardLedger::new());
}

#[test]
fn post_dispatch_ignores_failed_transaction() {
    let state = uninitialized_environment();
    let mut ledger = RewardLedger::new();

    run_post_dispatch(
        Some(all_finality_pre_dispatch_data()),
        Err(DispatchError::BadOrigin),
        &state,
        &mut ledger,
    );

    assert_eq!(ledger, RewardLedger::new());
}

#[test]
fn post_dispatch_ignores_transaction_that_has_not_updated_relay_chain_state() {
    let state = initialize_environment(100, 200, 200);
    let mut ledger = RewardLedger::new();

    run_post_dispatch(Some(all_finality_pre_dispatch_data()), Ok(()), &state, &mut ledger);

    assert_eq!(ledger, RewardLedger::new());
}

#[test]
fn post_dispatch_ignores_transaction_that_has_not_updated_parachain_state() {
    let state = initialize_environment(200, 100, 200);
    let mut ledger = RewardLedger::new();

    run_post_dispatch(Some(all_finality_pre_dispatch_data()), Ok(()), &state, &mut ledger);
    run_post_dispatch(Some(parachain_finality_pre_dispatch_data()), Ok(()), &state, &mut ledger);

    assert_eq!(ledger, RewardLedger::new());
}

#[test]
fn post_dispatch_ignores_transaction_that_has_not_delivered_any_messages() {
    let state = initialize_environment(200, 200, 100);
    let mut ledger = RewardLedger::new();

    run_post_dispatch(Some(all_finality_pre_dispatch_data()), Ok(()), &state, &mut ledger);
    run_post_dispatch(Some(parachain_finality_pre_dispatch_data()), Ok(()), &state, &mut ledger);
    run_post_dispatch(Some(delivery_pre_dispatch_data()), Ok(()), &state, &mut ledger);

    assert_eq!(ledger, RewardLedger::new());
}

#[test]
fn post_dispatch_refunds_relayer_in_all_finality_batch() {
    let state = initialize_environment(200, 200, 200);
    let mut ledger = RewardLedger::new();

    run_post_dispatch(Some(all_finality_pre_dispatch_data()), Ok(()), &state, &mut ledger);

    assert_eq!(
        ledger.relayer_reward(relayer_account_at_this_chain(), TEST_LANE_ID),
        Some(expected_reward()),
    );
}

#[test]
fn post_dispatch_refunds_relayer_in_parachain_finality_batch() {
    let state = initialize_environment(200, 200, 200);
    let mut ledger = RewardLedger::new();

    run_post_dispatch(Some(parachain_finality_pre_dispatch_data()), Ok(()), &state, &mut ledger);

    assert_eq!(
        ledger.relayer_reward(relayer_account_at_this_chain(), TEST_LANE_ID),
        Some(expected_reward()),
    );
}

#[test]
fn post_dispatch_refunds_relayer_in_message_delivery_transaction() {
    let state = initialize_environment(200, 200, 200);
    let mut ledger = RewardLedger::new();

    run_post_dispatch(Some(delivery_pre_dispatch_data()), Ok(()), &state, &mut ledger);

    assert_eq!(
        ledger.relayer_reward(relayer_account_at_this_chain(), TEST_LANE_ID),
        Some(expected_reward()),
    );
}
