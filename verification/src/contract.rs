//! The entry points: set an instance up, execute a request, answer a
//! query.
//!
//! A swap request is accepted when its trade was never dispatched, or was
//! last dispatched more than the retry delay ago; it is then logged at the
//! block time and passed on to the relayer job. The administrative
//! requests are the owner's alone and change nothing here: each becomes
//! one message to the relayer job.

use crate::abi::{address_padding, selector};
use crate::address::{hex_address, EvmAddress};
use crate::error::ContractError;
use crate::msg::{ExecuteMsg, GetJobIdResponse, InstantiateMsg, PalomaMsg, PalomaMsgView, QueryMsg};
use crate::state::{
    dispatch_key, dispatch_key_of, State, StateView, StorageError, Store, StoreView, Timestamp,
    NANOS_PER_SECOND,
};
use crate::target::{
    set_paloma_payload, swap_payload, update_compass_payload, update_fee_payload,
    update_refund_wallet_payload,
};
use crate::uint256::Uint256;
use vstd::prelude::*;

verus! {

/// What a request is told of the block that it runs in.
#[derive(Clone, Copy, Debug, PartialEq, Eq)]
pub struct BlockInfo {
    /// The block time.
    pub time: Timestamp,
}

/// What a request is told of its surroundings.
#[derive(Clone, Copy, Debug, PartialEq, Eq)]
pub struct Env {
    pub block: BlockInfo,
}

/// What a request is told of its sender.
#[derive(Clone, Debug, PartialEq, Eq)]
pub struct MessageInfo {
    /// The address that sent the request.
    pub sender: String,
}

/// A key and a value that a response carries for observers.
#[derive(Clone, Debug, PartialEq, Eq)]
pub struct Attribute {
    pub key: String,
    pub value: String,
}

/// The answer to a request that was carried out.
#[derive(Clone, Debug, PartialEq, Eq)]
pub struct Response {
    /// The messages to the relayer: none or one.
    pub messages: Vec<PalomaMsg>,
    /// What observers are told.
    pub attributes: Vec<Attribute>,
}

/// What a [`Response`] holds.
pub struct ResponseView {
    pub messages: Seq<PalomaMsgView>,
    pub attributes: Seq<(Seq<char>, Seq<char>)>,
}

impl View for Response {
    type V = ResponseView;

    open spec fn view(&self) -> ResponseView {
        ResponseView {
            messages: self.messages@.map_values(|m: PalomaMsg| m@),
            attributes: self.attributes@.map_values(|a: Attribute| (a.key@, a.value@)),
        }
    }
}

/// An outcome with the response taken by what it holds.
pub open spec fn outcome(r: Result<Response, ContractError>) -> Result<ResponseView, ContractError> {
    match r {
        Ok(response) => Ok(response@),
        Err(e) => Err(e),
    }
}

/// The response that passes one call on to the relayer job.
pub open spec fn relayed(job_id: Seq<char>, payload: Seq<u8>, action: Seq<char>) -> ResponseView {
    ResponseView {
        messages: seq![PalomaMsgView { job_id, payload }],
        attributes: seq![("action"@, action)],
    }
}

/// The store after an instance was set up by `sender`.
pub open spec fn instantiated(pre: StoreView, sender: Seq<char>, msg: InstantiateMsg) -> StoreView {
    StoreView {
        state: Some(StateView { owner: sender, job_id: msg.job_id@ }),
        retry_delay: Some(msg.retry_delay),
        dispatch_log: pre.dispatch_log,
    }
}

/// Whether a swap of the trade with the given key is accepted at `now`:
/// the trade was never dispatched, or its last dispatch lies more than the
/// retry delay back.
pub open spec fn swap_accepted(pre: StoreView, key: Seq<u8>, retry_delay: u64, now: Timestamp) -> bool {
    !pre.dispatch_log.dom().contains(key) || pre.dispatch_log[key].retry_due(retry_delay, now)
}

/// The outcome of a swap request.
pub open spec fn swap_result(
    pre: StoreView,
    now: Timestamp,
    swap_id: Uint256,
    amount_out_min: Uint256,
    number_trades: Uint256,
) -> Result<ResponseView, ContractError> {
    match (pre.state, pre.retry_delay) {
        (Some(state), Some(retry_delay)) => {
            if swap_accepted(pre, dispatch_key_of(swap_id, number_trades), retry_delay, now) {
                Ok(
                    relayed(
                        state.job_id,
                        selector("swap(uint256,uint256)"@) + swap_id.be_bytes() + amount_out_min.be_bytes(),
                        "swap"@,
                    ),
                )
            } else {
                Err(ContractError::AllPending)
            }
        },
        _ => Err(ContractError::Storage(StorageError::NotFound)),
    }
}

/// The store after a swap request: an accepted one logs the trade at
/// `now`, a refused one changes nothing.
pub open spec fn swap_store(
    pre: StoreView,
    now: Timestamp,
    swap_id: Uint256,
    amount_out_min: Uint256,
    number_trades: Uint256,
) -> StoreView {
    if swap_result(pre, now, swap_id, amount_out_min, number_trades) is Ok {
        StoreView {
            dispatch_log: pre.dispatch_log.insert(dispatch_key_of(swap_id, number_trades), now),
            ..pre
        }
    } else {
        pre
    }
}

/// Whether the request comes from the owner of an instance that was set
/// up.
pub open spec fn sent_by_owner(pre: StoreView, sender: Seq<char>) -> bool {
    pre.state matches Some(state) && state.owner == sender
}

/// The outcome of an administrative request that asks for a call with the
/// given calldata: the owner's goes to the relayer job, anyone else's is
/// refused.
pub open spec fn admin_result(pre: StoreView, sender: Seq<char>, payload: Seq<u8>, action: Seq<char>) -> Result<
    ResponseView,
    ContractError,
> {
    match pre.state {
        Some(state) => {
            if state.owner == sender {
                Ok(relayed(state.job_id, payload, action))
            } else {
                Err(ContractError::Unauthorized)
            }
        },
        None => Err(ContractError::Storage(StorageError::NotFound)),
    }
}

/// The name of the action that a request asks for.
pub open spec fn action_of(msg: ExecuteMsg) -> Seq<char> {
    match msg {
        ExecuteMsg::Swap { .. } => "swap"@,
        ExecuteMsg::SetPaloma {  } => "set_paloma"@,
        ExecuteMsg::UpdateCompass { .. } => "update_compass"@,
        ExecuteMsg::UpdateRefundWallet { .. } => "update_refund_wallet"@,
        ExecuteMsg::UpdateFee { .. } => "update_fee"@,
    }
}

/// The calldata that a request asks to be relayed: the selector of the
/// remote function, then a word for each argument.
pub open spec fn payload_of(msg: ExecuteMsg) -> Seq<u8> {
    match msg {
        ExecuteMsg::Swap { swap_id, amount_out_min, .. } => selector("swap(uint256,uint256)"@)
            + swap_id.be_bytes() + amount_out_min.be_bytes(),
        ExecuteMsg::SetPaloma {  } => selector("set_paloma()"@),
        ExecuteMsg::UpdateCompass { new_compass } => selector("update_compass(address)"@)
            + address_padding() + hex_address(new_compass@).unwrap(),
        ExecuteMsg::UpdateRefundWallet { new_refund_wallet } => selector(
            "update_refund_wallet(address)"@,
        ) + address_padding() + hex_address(new_refund_wallet@).unwrap(),
        ExecuteMsg::UpdateFee { fee } => selector("update_fee(uint256)"@) + fee.be_bytes(),
    }
}

/// The number of bytes of the calldata that a request asks to be relayed:
/// four of the selector and 32 for each argument.
pub open spec fn payload_len_of(msg: ExecuteMsg) -> nat {
    match msg {
        ExecuteMsg::Swap { .. } => 68,
        ExecuteMsg::SetPaloma {  } => 4,
        ExecuteMsg::UpdateCompass { .. } => 36,
        ExecuteMsg::UpdateRefundWallet { .. } => 36,
        ExecuteMsg::UpdateFee { .. } => 36,
    }
}

/// Whether carrying the request out would read an address text that
/// denotes no address. The owner must not send such a request.
pub open spec fn misaddressed(pre: StoreView, sender: Seq<char>, msg: ExecuteMsg) -> bool {
    sent_by_owner(pre, sender) && match msg {
        ExecuteMsg::UpdateCompass { new_compass } => hex_address(new_compass@) is None,
        ExecuteMsg::UpdateRefundWallet { new_refund_wallet } => hex_address(new_refund_wallet@) is None,
        _ => false,
    }
}

/// The outcome of a request: a swap goes by the retry delay, every other
/// request by who sent it.
pub open spec fn execute_result(pre: StoreView, now: Timestamp, sender: Seq<char>, msg: ExecuteMsg) -> Result<
    ResponseView,
    ContractError,
> {
    match msg {
        ExecuteMsg::Swap { swap_id, amount_out_min, number_trades } => swap_result(
            pre,
            now,
            swap_id,
            amount_out_min,
            number_trades,
        ),
        _ => admin_result(pre, sender, payload_of(msg), action_of(msg)),
    }
}

/// The store after a request: only a swap can change it.
pub open spec fn execute_store(pre: StoreView, now: Timestamp, msg: ExecuteMsg) -> StoreView {
    match msg {
        ExecuteMsg::Swap { swap_id, amount_out_min, number_trades } => swap_store(
            pre,
            now,
            swap_id,
            amount_out_min,
            number_trades,
        ),
        _ => pre,
    }
}

/// An accepted swap leaves the block time in the log under the trade's
/// key, and every other trade as it was.
pub proof fn lemma_accepted_swap_is_logged(
    pre: StoreView,
    now: Timestamp,
    swap_id: Uint256,
    amount_out_min: Uint256,
    number_trades: Uint256,
)
    requires
        swap_result(pre, now, swap_id, amount_out_min, number_trades) is Ok,
    ensures
        ({
            let post = swap_store(pre, now, swap_id, amount_out_min, number_trades);
            let key = dispatch_key_of(swap_id, number_trades);
            &&& post.dispatch_log.dom().contains(key)
            &&& post.dispatch_log[key] == now
            &&& forall|other: Seq<u8>|
                other != key ==> {
                    &&& post.dispatch_log.dom().contains(other) == pre.dispatch_log.dom().contains(other)
                    &&& post.dispatch_log[other] == pre.dispatch_log[other]
                }
        }),
{
}

/// On an instance that was set up, a swap of a trade that was dispatched
/// before is accepted exactly if more than the retry delay has passed
/// since, and is refused as pending otherwise; a swap of a trade that was
/// never dispatched is accepted.
pub proof fn lemma_swap_accepted_iff_retry_due(
    pre: StoreView,
    now: Timestamp,
    swap_id: Uint256,
    amount_out_min: Uint256,
    number_trades: Uint256,
)
    requires
        pre.state is Some,
        pre.retry_delay is Some,
    ensures
        ({
            let key = dispatch_key_of(swap_id, number_trades);
            let result = swap_result(pre, now, swap_id, amount_out_min, number_trades);
            &&& pre.dispatch_log.dom().contains(key) ==> (result is Ok <==> pre.dispatch_log[key].nanos
                + pre.retry_delay.unwrap() * NANOS_PER_SECOND < now.nanos)
            &&& !pre.dispatch_log.dom().contains(key) ==> result is Ok
            &&& result is Err ==> result == Err::<ResponseView, ContractError>(ContractError::AllPending)
        }),
{
}

/// A request that is refused, for whatever reason, changes nothing.
pub proof fn lemma_refused_request_changes_nothing(
    pre: StoreView,
    now: Timestamp,
    sender: Seq<char>,
    msg: ExecuteMsg,
)
    requires
        execute_result(pre, now, sender, msg) is Err,
    ensures
        execute_store(pre, now, msg) == pre,
{
}

/// A request that is carried out emits exactly one message, addressed to
/// the job that the instance was set up with; and no request changes the
/// owner, the job or the retry delay.
pub proof fn lemma_one_message_to_the_job(pre: StoreView, now: Timestamp, sender: Seq<char>, msg: ExecuteMsg)
    ensures
        execute_result(pre, now, sender, msg) matches Ok(response) ==> {
            &&& pre.state is Some
            &&& response.messages.len() == 1
            &&& response.messages[0].job_id == pre.state.unwrap().job_id
            &&& response.messages[0].payload == payload_of(msg)
        },
        execute_store(pre, now, msg).state == pre.state,
        execute_store(pre, now, msg).retry_delay == pre.retry_delay,
{
}

/// A request other than a swap, sent to an instance by anyone but its
/// owner, is refused as unauthorized and changes nothing.
pub proof fn lemma_owner_only(pre: StoreView, now: Timestamp, sender: Seq<char>, msg: ExecuteMsg)
    requires
        !(msg is Swap),
        pre.state matches Some(state) && state.owner != sender,
    ensures
        execute_result(pre, now, sender, msg) == Err::<ResponseView, ContractError>(
            ContractError::Unauthorized,
        ),
        execute_store(pre, now, msg) == pre,
{
}

/// The calldata that a request is relayed with depends on the request
/// alone: not on the store, the block time or the sender.
pub proof fn lemma_payload_depends_on_request_alone(
    pre1: StoreView,
    now1: Timestamp,
    sender1: Seq<char>,
    pre2: StoreView,
    now2: Timestamp,
    sender2: Seq<char>,
    msg: ExecuteMsg,
)
    requires
        execute_result(pre1, now1, sender1, msg) is Ok,
        execute_result(pre2, now2, sender2, msg) is Ok,
    ensures
        execute_result(pre1, now1, sender1, msg).unwrap().messages[0].payload == execute_result(
            pre2,
            now2,
            sender2,
            msg,
        ).unwrap().messages[0].payload,
{
}

/// The store after a series of requests, each given with its block time
/// and carried out or refused in turn.
pub open spec fn after_requests(pre: StoreView, requests: Seq<(Timestamp, ExecuteMsg)>) -> StoreView
    decreases requests.len(),
{
    if requests.len() == 0 {
        pre
    } else {
        execute_store(after_requests(pre, requests.drop_last()), requests.last().0, requests.last().1)
    }
}

/// Whatever is asked of an instance, and however often, its owner, its job
/// and its retry delay stay what they were, and no trade leaves the log.
pub proof fn lemma_requests_keep_identity(pre: StoreView, requests: Seq<(Timestamp, ExecuteMsg)>)
    ensures
        after_requests(pre, requests).state == pre.state,
        after_requests(pre, requests).retry_delay == pre.retry_delay,
        forall|key: Seq<u8>|
            pre.dispatch_log.dom().contains(key) ==> after_requests(
                pre,
                requests,
            ).dispatch_log.dom().contains(key),
    decreases requests.len(),
{
    if requests.len() > 0 {
        lemma_requests_keep_identity(pre, requests.drop_last());
    }
}

/// Sets an instance up: the sender becomes its owner, and the job and the
/// retry delay are fixed. This happens once per store.
pub fn instantiate(deps: &mut Store, _env: Env, info: MessageInfo, msg: InstantiateMsg) -> (r: Result<
    Response,
    ContractError,
>)
    requires
        old(deps)@.state is None,
        old(deps)@.retry_delay is None,
    ensures
        final(deps)@ == instantiated(old(deps)@, info.sender@, msg),
        r matches Ok(response) && response@ == (ResponseView {
            messages: seq![],
            attributes: seq![
                ("method"@, "instantiate"@),
                ("owner"@, info.sender@),
                ("job_id"@, msg.job_id@),
            ],
        }),
{
    let state = State { job_id: msg.job_id.clone(), owner: info.sender.clone() };
    deps.identity_set(state);
    deps.retry_delay_set(msg.retry_delay);
    let mut attributes: Vec<Attribute> = Vec::new();
    attributes.push(Attribute { key: "method".to_owned(), value: "instantiate".to_owned() });
    attributes.push(Attribute { key: "owner".to_owned(), value: info.sender });
    attributes.push(Attribute { key: "job_id".to_owned(), value: msg.job_id });
    let response = Response { messages: Vec::new(), attributes };
    assert(response@.messages =~= seq![]);
    assert(response@.attributes =~= seq![
        ("method"@, "instantiate"@),
        ("owner"@, info.sender@),
        ("job_id"@, msg.job_id@),
    ]);
    Ok(response)
}

/// Carries one request out. The owner's address texts must denote
/// addresses; [`can_execute`] tells whether they do.
pub fn execute(deps: &mut Store, env: Env, info: MessageInfo, msg: ExecuteMsg) -> (r: Result<
    Response,
    ContractError,
>)
    requires
        !misaddressed(old(deps)@, info.sender@, msg),
    ensures
        outcome(r) == execute_result(old(deps)@, env.block.time, info.sender@, msg),
        final(deps)@ == execute_store(old(deps)@, env.block.time, msg),
        r matches Ok(response) ==> response@.messages[0].payload.len() == payload_len_of(msg),
{
    match msg {
        ExecuteMsg::Swap { swap_id, amount_out_min, number_trades } => swap(
            deps,
            env,
            swap_id,
            amount_out_min,
            number_trades,
        ),
        ExecuteMsg::SetPaloma {  } => set_paloma(deps, info),
        ExecuteMsg::UpdateCompass { new_compass } => update_compass(deps, info, new_compass),
        ExecuteMsg::UpdateRefundWallet { new_refund_wallet } => update_refund_wallet(
            deps,
            info,
            new_refund_wallet,
        ),
        ExecuteMsg::UpdateFee { fee } => update_fee(deps, info, fee),
    }
}

/// Tells whether [`execute`] can carry the request out: `false` where the
/// owner sent an address text that denotes no address.
pub fn can_execute(deps: &Store, info: &MessageInfo, msg: &ExecuteMsg) -> (r: bool)
    ensures
        r == !misaddressed(deps@, info.sender@, *msg),
{
    let by_owner = match deps.identity_get() {
        Ok(state) => state.owner == info.sender,
        Err(_) => false,
    };
    if !by_owner {
        return true;
    }
    match msg {
        ExecuteMsg::UpdateCompass { new_compass } => EvmAddress::parse(new_compass.as_str()).is_some(),
        ExecuteMsg::UpdateRefundWallet { new_refund_wallet } => EvmAddress::parse(
            new_refund_wallet.as_str(),
        ).is_some(),
        _ => true,
    }
}

/// Answers a query. Nothing changes.
pub fn query(deps: &Store, _env: Env, msg: QueryMsg) -> (r: Result<GetJobIdResponse, StorageError>)
    ensures
        match r {
            Ok(response) => deps@.state matches Some(state) && state.job_id == response.job_id@,
            Err(e) => deps@.state is None && e == StorageError::NotFound,
        },
{
    match msg {
        QueryMsg::GetJobId {  } => get_job_id(deps),
    }
}

/// Builds the response that passes one call on to the relayer job.
fn relay(job_id: String, payload: Vec<u8>, action: &str) -> (r: Response)
    ensures
        r@ == relayed(job_id@, payload@, action@),
{
    let ghost message = PalomaMsgView { job_id: job_id@, payload: payload@ };
    let mut messages: Vec<PalomaMsg> = Vec::new();
    messages.push(PalomaMsg { job_id, payload });
    let mut attributes: Vec<Attribute> = Vec::new();
    attributes.push(Attribute { key: "action".to_owned(), value: action.to_owned() });
    let r = Response { messages, attributes };
    assert(r@.messages =~= seq![message]);
    assert(r@.attributes =~= seq![("action"@, action@)]);
    r
}

/// Dispatches one scheduled trade of a swap, unless it was dispatched less
/// than the retry delay ago. Anyone may ask.
pub fn swap(
    deps: &mut Store,
    env: Env,
    swap_id: Uint256,
    amount_out_min: Uint256,
    number_trades: Uint256,
) -> (r: Result<Response, ContractError>)
    ensures
        outcome(r) == swap_result(old(deps)@, env.block.time, swap_id, amount_out_min, number_trades),
        final(deps)@ == swap_store(old(deps)@, env.block.time, swap_id, amount_out_min, number_trades),
        r matches Ok(response) ==> response@.messages[0].payload.len() == 68,
{
    let job_id = match deps.identity_get() {
        Ok(state) => state.job_id.clone(),
        Err(e) => {
            return Err(ContractError::Storage(e));
        },
    };
    let retry_delay = match deps.retry_delay_get() {
        Ok(retry_delay) => retry_delay,
        Err(e) => {
            return Err(ContractError::Storage(e));
        },
    };
    let key = dispatch_key(&swap_id, &number_trades);
    let accepted = match deps.dispatch_log_get(&key) {
        Some(last) => last.is_retry_due(retry_delay, env.block.time),
        None => true,
    };
    if !accepted {
        return Err(ContractError::AllPending);
    }
    deps.dispatch_log_put(key, env.block.time);
    Ok(relay(job_id, swap_payload(swap_id, amount_out_min), "swap"))
}

/// Reads the relayer job for a request that only the owner may make.
fn owner_gate(deps: &Store, info: &MessageInfo) -> (r: Result<String, ContractError>)
    ensures
        match r {
            Ok(job_id) => deps@.state matches Some(state) && state.owner == info.sender@ && state.job_id
                == job_id@,
            Err(e) => match deps@.state {
                Some(state) => state.owner != info.sender@ && e == ContractError::Unauthorized,
                None => e == ContractError::Storage(StorageError::NotFound),
            },
        },
{
    match deps.identity_get() {
        Ok(state) => {
            if state.owner == info.sender {
                Ok(state.job_id.clone())
            } else {
                Err(ContractError::Unauthorized)
            }
        },
        Err(e) => Err(ContractError::Storage(e)),
    }
}

/// Asks the remote contract to bind itself to this chain. Owner only.
pub fn set_paloma(deps: &Store, info: MessageInfo) -> (r: Result<Response, ContractError>)
    ensures
        outcome(r) == admin_result(deps@, info.sender@, selector("set_paloma()"@), "set_paloma"@),
        r matches Ok(response) ==> response@.messages[0].payload.len() == 4,
{
    let job_id = owner_gate(deps, &info)?;
    Ok(relay(job_id, set_paloma_payload(), "set_paloma"))
}

/// Asks the remote contract to use another bridge endpoint. Owner only.
/// The owner's address text must denote an address.
pub fn update_compass(deps: &Store, info: MessageInfo, new_compass: String) -> (r: Result<
    Response,
    ContractError,
>)
    requires
        sent_by_owner(deps@, info.sender@) ==> hex_address(new_compass@) is Some,
    ensures
        outcome(r) == admin_result(
            deps@,
            info.sender@,
            selector("update_compass(address)"@) + address_padding() + hex_address(new_compass@).unwrap(),
            "update_compass"@,
        ),
        r matches Ok(response) ==> response@.messages[0].payload.len() == 36,
{
    let job_id = owner_gate(deps, &info)?;
    let address = match EvmAddress::parse(new_compass.as_str()) {
        Some(address) => address,
        None => vstd::pervasive::unreached(),
    };
    Ok(relay(job_id, update_compass_payload(address), "update_compass"))
}

/// Asks the remote contract to send refunds to another wallet. Owner only.
/// The owner's address text must denote an address.
pub fn update_refund_wallet(deps: &Store, info: MessageInfo, new_refund_wallet: String) -> (r: Result<
    Response,
    ContractError,
>)
    requires
        sent_by_owner(deps@, info.sender@) ==> hex_address(new_refund_wallet@) is Some,
    ensures
        outcome(r) == admin_result(
            deps@,
            info.sender@,
            selector("update_refund_wallet(address)"@) + address_padding() + hex_address(
                new_refund_wallet@,
            ).unwrap(),
            "update_refund_wallet"@,
        ),
        r matches Ok(response) ==> response@.messages[0].payload.len() == 36,
{
    let job_id = owner_gate(deps, &info)?;
    let address = match EvmAddress::parse(new_refund_wallet.as_str()) {
        Some(address) => address,
        None => vstd::pervasive::unreached(),
    };
    Ok(relay(job_id, update_refund_wallet_payload(address), "update_refund_wallet"))
}

/// Asks the remote contract to charge another fee. Owner only.
pub fn update_fee(deps: &Store, info: MessageInfo, fee: Uint256) -> (r: Result<Response, ContractError>)
    ensures
        outcome(r) == admin_result(
            deps@,
            info.sender@,
            selector("update_fee(uint256)"@) + fee.be_bytes(),
            "update_fee"@,
        ),
        r matches Ok(response) ==> response@.messages[0].payload.len() == 36,
{
    let job_id = owner_gate(deps, &info)?;
    Ok(relay(job_id, update_fee_payload(fee), "update_fee"))
}

/// The relayer job of the instance.
pub fn get_job_id(deps: &Store) -> (r: Result<GetJobIdResponse, StorageError>)
    ensures
        match r {
            Ok(response) => deps@.state matches Some(state) && state.job_id == response.job_id@,
            Err(e) => deps@.state is None && e == StorageError::NotFound,
        },
{
    match deps.identity_get() {
        Ok(state) => Ok(GetJobIdResponse { job_id: state.job_id.clone() }),
        Err(e) => Err(e),
    }
}

} // verus!
