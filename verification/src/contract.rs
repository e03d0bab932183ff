//! The entry points of a node: the command router, its two handlers, and the
//! reply path that forwards what a sub-call answered.
//!
//! A node holds no state between invocations. Every sub-call goes out under
//! the one identifier `REPLY_ID`, and a reply is accepted only under it.

use vstd::prelude::*;
use vstd::string::{is_ascii, is_ascii_spec_bytes, StringSliceAdditionalSpecFns};

use crate::codec::{base64_text, json_text, lowercase_text, to_base64, to_lowercase};
use crate::error::ContractError;
use crate::msg::{echo_data_wire, echo_wire, EchoDataMsg, ExecuteMsg, InstantiateMsg};
use crate::response::{Reply, ReplyOn, Response, ResponseView, SubMsg, SubMsgResult, SubMsgView};

verus! {

/// The identifier under which every sub-call is sent and its reply expected.
pub const REPLY_ID: u64 = 0xfa61;

/// The view of an invocation's outcome: that of the response, or the error.
pub open spec fn outcome_view(outcome: Result<Response, ContractError>) -> Result<
    ResponseView,
    ContractError,
> {
    match outcome {
        Ok(response) => Ok(response@),
        Err(error) => Err(error),
    }
}

/// The response that forwards `data`, whose base64 text is `reply_data`.
pub open spec fn reply_response_view(data: Seq<u8>, reply_data: Seq<char>) -> ResponseView {
    ResponseView::empty().set_data(data).add_attribute("reply_data"@, reply_data)
}

/// The outcome of the reply path on the host's report `reply`.
pub open spec fn reply_outcome(reply: Reply) -> Result<ResponseView, ContractError> {
    if reply.id != REPLY_ID {
        Err(ContractError::UnknownCorrelationId)
    } else if reply.result is Failure {
        Err(ContractError::UnexpectedFailureOutcome)
    } else {
        match reply.result.payload() {
            Some(data) => Ok(reply_response_view(data, base64_text(data))),
            None => Err(ContractError::MissingReplyData),
        }
    }
}

/// Builds the response that forwards `data`, given its base64 text.
pub fn reply_response(data: Vec<u8>, reply_data: String) -> (response: Response)
    ensures
        response@ == reply_response_view(data@, reply_data@),
{
    Response::new().set_data(data).add_attribute("reply_data".to_owned(), reply_data)
}

/// The reply path. The host calls it once a sub-call of this node has ended.
/// A reply under another identifier than `REPLY_ID` is rejected whatever it
/// carries, then a reported failure, then a success whose data is absent or
/// empty. The data of any other reply becomes the node's own result data, byte
/// for byte, and is published in base64 as the attribute `reply_data`. Nothing
/// else ends the reply path in a response.
pub fn reply(notice: Reply) -> (outcome: Result<Response, ContractError>)
    ensures
        outcome_view(outcome) == reply_outcome(notice),
        notice.id != REPLY_ID ==> outcome_view(outcome) == Err::<ResponseView, ContractError>(
            ContractError::UnknownCorrelationId,
        ),
        notice.id == REPLY_ID && notice.result is Failure ==> outcome_view(outcome) == Err::<
            ResponseView,
            ContractError,
        >(ContractError::UnexpectedFailureOutcome),
        notice.id == REPLY_ID && notice.result is Success && notice.result.payload() is None
            ==> outcome_view(outcome) == Err::<ResponseView, ContractError>(
            ContractError::MissingReplyData,
        ),
        notice.id == REPLY_ID && notice.result.payload() is Some ==> (outcome matches Ok(response)
            && response@.data == notice.result.payload()),
        outcome is Ok <==> notice.id == REPLY_ID && notice.result.payload() is Some,
{
    if notice.id != REPLY_ID {
        return Err(ContractError::UnknownCorrelationId);
    }
    match notice.result {
        SubMsgResult::Success { data } => match data {
            Some(data) => {
                if data.len() == 0 {
                    return Err(ContractError::MissingReplyData);
                }
                let reply_data = to_base64(data.as_slice());
                Ok(reply_response(data, reply_data))
            },
            None => Err(ContractError::MissingReplyData),
        },
        SubMsgResult::Failure { .. } => Err(ContractError::UnexpectedFailureOutcome),
    }
}

/// The response to a sub-call command once the host has accepted the target as
/// `contract_addr`: one call to that node, carrying the serialized command
/// `msg`, sent under `REPLY_ID` and reported back on success only. No result
/// data is set: that is left to the reply path.
pub open spec fn sub_call_response_view(
    contract_addr: Seq<char>,
    text: Seq<char>,
    msg: Seq<u8>,
) -> ResponseView {
    ResponseView::empty().add_submessage(
        SubMsgView { id: REPLY_ID, contract_addr, msg, reply_on: ReplyOn::Success },
    ).add_attribute("method"@, "sub_call"@).add_attribute("text"@, text)
}

/// The outcome of a sub-call command with the text `text`, where `validated`
/// is the host's verdict on the target: the address as the host returned it,
/// or nothing where the host rejected it.
pub open spec fn sub_call_outcome(validated: Option<Seq<char>>, text: Seq<char>) -> Result<
    ResponseView,
    ContractError,
> {
    match validated {
        Some(contract_addr) => Ok(
            sub_call_response_view(contract_addr, text, echo_wire(json_text(text))),
        ),
        None => Err(ContractError::InvalidAddress),
    }
}

/// The address that the host is asked to validate for the target `contract`:
/// its lowercase form.
pub fn normalize_address(contract: &str) -> (address: String)
    ensures
        address@ == lowercase_text(contract@),
{
    to_lowercase(contract)
}

/// Builds the response to a sub-call command, given the validated target and
/// the serialized command to embed.
pub fn sub_call_response(contract_addr: String, text: String, msg: Vec<u8>) -> (response: Response)
    ensures
        response@ == sub_call_response_view(contract_addr@, text@, msg@),
{
    let sub_msg = SubMsg::reply_on_success(contract_addr, msg, REPLY_ID);
    Response::new().add_submessage(sub_msg).add_attribute(
        "method".to_owned(),
        "sub_call".to_owned(),
    ).add_attribute("text".to_owned(), text)
}

/// The sub-call handler, from the host's verdict on. `validated` is what the
/// host answered when asked to validate `normalize_address` of the target: the
/// address, or nothing where it rejected it. A rejected target ends the
/// invocation with `InvalidAddress` and no call is queued. Otherwise the
/// response queues one call to the validated address that carries an `Echo`
/// command with `text`.
pub fn execute_sub_call(validated: Option<String>, text: String) -> (outcome: Result<
    Response,
    ContractError,
>)
    ensures
        outcome_view(outcome) == sub_call_outcome(validated.deep_view(), text@),
        validated is None ==> outcome_view(outcome) == Err::<ResponseView, ContractError>(
            ContractError::InvalidAddress,
        ),
{
    let contract_addr = match validated {
        Some(contract_addr) => contract_addr,
        None => {
            return Err(ContractError::InvalidAddress);
        },
    };
    let msg = ExecuteMsg::Echo { text: text.clone() };
    let embedded = msg.to_json();
    Ok(sub_call_response(contract_addr, text, embedded))
}

/// The response to an echo command with the text `text`, where `data` is the
/// serialized echo body and `echo_data` its base64 text.
pub open spec fn echo_response_view(
    text: Seq<char>,
    data: Seq<u8>,
    echo_data: Seq<char>,
) -> ResponseView {
    ResponseView::empty().set_data(data).add_attribute("method"@, "echo"@).add_attribute(
        "text"@,
        text,
    ).add_attribute("echo_data"@, echo_data)
}

/// The response to an echo command with the text `text`.
pub open spec fn echo_outcome(text: Seq<char>) -> ResponseView {
    let data = echo_data_wire(json_text(text));
    echo_response_view(text, data, base64_text(data))
}

/// Builds the response to an echo command, given the serialized echo body and
/// its base64 text.
pub fn echo_response(text: String, data: Vec<u8>, echo_data: String) -> (response: Response)
    ensures
        response@ == echo_response_view(text@, data@, echo_data@),
{
    Response::new().set_data(data).add_attribute(
        "method".to_owned(),
        "echo".to_owned(),
    ).add_attribute("text".to_owned(), text).add_attribute("echo_data".to_owned(), echo_data)
}

/// The echo handler. It succeeds on every text. The result data is the
/// serialized echo body of `text`, so the same text always gives the same
/// data; the attributes publish the text and the data in base64.
pub fn execute_echo(text: String) -> (outcome: Result<Response, ContractError>)
    ensures
        outcome_view(outcome) == Ok::<ResponseView, ContractError>(echo_outcome(text@)),
{
    let msg = EchoDataMsg { text: text.clone() };
    let data = msg.to_json();
    let echo_data = to_base64(data.as_slice());
    Ok(echo_response(text, data, echo_data))
}

/// Where the router leaves a command.
#[derive(Debug, PartialEq, Eq)]
pub enum Routed {
    /// The command has been handled, with this outcome.
    Done(Result<Response, ContractError>),
    /// The command is a sub-call, and the host has to validate `address`
    /// before it can go on. The host's verdict goes to `execute_sub_call`,
    /// together with `text`.
    ValidateAddress { address: String, text: String },
}

/// What a `Routed` holds.
#[verifier::ext_equal]
pub enum RoutedView {
    Done(Result<ResponseView, ContractError>),
    ValidateAddress { address: Seq<char>, text: Seq<char> },
}

impl View for Routed {
    type V = RoutedView;

    open spec fn view(&self) -> RoutedView {
        match self {
            Routed::Done(outcome) => RoutedView::Done(outcome_view(*outcome)),
            Routed::ValidateAddress { address, text } => RoutedView::ValidateAddress {
                address: address@,
                text: text@,
            },
        }
    }
}

/// Where the router leaves `msg`: an echo command is handled at once, a
/// sub-call waits for the host's verdict on the lowercase form of its target.
pub open spec fn route(msg: ExecuteMsg) -> RoutedView {
    match msg {
        ExecuteMsg::Echo { text } => RoutedView::Done(Ok(echo_outcome(text@))),
        ExecuteMsg::SubCall { contract, text } => RoutedView::ValidateAddress {
            address: lowercase_text(contract@),
            text: text@,
        },
    }
}

/// The command router. It does nothing but pick the handler by the command's
/// tag: the echo handler runs to its end; for a sub-call the target is
/// normalized and handed back for the host to validate.
pub fn execute(msg: ExecuteMsg) -> (routed: Routed)
    ensures
        routed@ == route(msg),
{
    match msg {
        ExecuteMsg::Echo { text } => Routed::Done(execute_echo(text)),
        ExecuteMsg::SubCall { contract, text } => Routed::ValidateAddress {
            address: normalize_address(contract.as_str()),
            text,
        },
    }
}

/// The response to the creation of a node by `sender`.
pub open spec fn instantiate_response_view(sender: Seq<char>) -> ResponseView {
    ResponseView::empty().add_attribute("method"@, "instantiate"@).add_attribute("owner"@, sender)
}

/// Answers the creation of a node: the response names `sender` as the owner.
/// It always succeeds.
pub fn instantiate(sender: String, _msg: InstantiateMsg) -> (outcome: Result<
    Response,
    ContractError,
>)
    ensures
        outcome_view(outcome) == Ok::<ResponseView, ContractError>(
            instantiate_response_view(sender@),
        ),
{
    Ok(
        Response::new().add_attribute("method".to_owned(), "instantiate".to_owned()).add_attribute(
            "owner".to_owned(),
            sender,
        ),
    )
}

/// The outcome of a sub-call command to `contract` with the text `text`, from
/// the command to the response, under a host that answers a request to
/// validate an address as `host` says.
pub open spec fn sub_dispatch(
    host: spec_fn(Seq<char>) -> Option<Seq<char>>,
    contract: Seq<char>,
    text: Seq<char>,
) -> Result<ResponseView, ContractError> {
    sub_call_outcome(host(lowercase_text(contract)), text)
}

/// Targets that differ only in case are one target. The router asks the host
/// to validate the same address for both spellings, and under any host both
/// commands end in the same outcome: the same call with the same embedded
/// command, or the same error.
pub proof fn lemma_target_case_insensitive(
    a: String,
    b: String,
    text: String,
    host: spec_fn(Seq<char>) -> Option<Seq<char>>,
)
    ensures
        lowercase_text(a@) == lowercase_text(b@) ==> {
            &&& route(ExecuteMsg::SubCall { contract: a, text }) == route(
                ExecuteMsg::SubCall { contract: b, text },
            )
            &&& sub_dispatch(host, a@, text@) == sub_dispatch(host, b@, text@)
        },
{
}

/// The serialized echo body is never empty.
pub proof fn lemma_echo_data_wire_nonempty(text_json: Seq<u8>)
    ensures
        echo_data_wire(text_json).len() > 0,
{
    reveal_strlit("}");
    assert(is_ascii("}"));
    is_ascii_spec_bytes("}");
}

/// Echo identity. A reply under `REPLY_ID` that reports success with the
/// serialized echo body of `text` is answered with exactly those bytes as
/// result data: the data that the echo handler sets for `text` crosses one
/// sub-call unchanged.
pub proof fn lemma_echo_data_forwarded(text: Seq<char>, data: Vec<u8>)
    ensures
        data@ == echo_data_wire(json_text(text)) ==> (reply_outcome(
            Reply { id: REPLY_ID, result: SubMsgResult::Success { data: Some(data) } },
        ) matches Ok(response) && response.data == Some(data@) && response.data == echo_outcome(
            text,
        ).data),
{
    lemma_echo_data_wire_nonempty(json_text(text));
}

/// One hop is transparent. The call that a sub-call command queues carries an
/// `Echo` command with the same text and goes out under `REPLY_ID`, and the
/// response sets no data of its own. When the result data `data` of the called
/// node's answer to that command comes back under the call's identifier, it
/// becomes the node's own result data, unchanged.
pub proof fn lemma_one_hop_transparent(contract_addr: Seq<char>, text: String, data: Vec<u8>)
    ensures
        sub_call_outcome(Some(contract_addr), text@) matches Ok(queued) && {
            &&& queued.data is None
            &&& queued.messages.len() == 1
            &&& queued.messages[0].id == REPLY_ID
            &&& queued.messages[0].contract_addr == contract_addr
            &&& queued.messages[0].msg == (ExecuteMsg::Echo { text }).wire()
            &&& echo_outcome(text@).data == Some(data@) ==> (reply_outcome(
                Reply { id: queued.messages[0].id, result: SubMsgResult::Success { data: Some(data) } },
            ) matches Ok(forwarded) && forwarded.data == echo_outcome(text@).data)
        },
{
    lemma_echo_data_wire_nonempty(json_text(text@));
}

} // verus!
