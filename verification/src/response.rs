use vstd::prelude::*;

verus! {

/// A key and a value that the host publishes with a response.
#[derive(Clone, Debug, PartialEq, Eq)]
pub struct Attribute {
    pub key: String,
    pub value: String,
}

impl View for Attribute {
    type V = (Seq<char>, Seq<char>);

    open spec fn view(&self) -> (Seq<char>, Seq<char>) {
        (self.key@, self.value@)
    }
}

/// When the host calls the node back about a sub-call.
#[derive(Clone, Copy, Debug, PartialEq, Eq, Structural)]
pub enum ReplyOn {
    /// After the sub-call, however it ended.
    Always,
    /// Only after the sub-call failed.
    Error,
    /// Only after the sub-call succeeded.
    Success,
    /// Never.
    Never,
}

/// One call that the node asks the host to deliver to another node: the
/// command in `msg`, for the node at `contract_addr`, to be reported back under
/// `id` as `reply_on` says.
#[derive(Clone, Debug, PartialEq, Eq)]
pub struct SubMsg {
    pub id: u64,
    pub contract_addr: String,
    pub msg: Vec<u8>,
    pub reply_on: ReplyOn,
}

/// What a `SubMsg` holds.
#[verifier::ext_equal]
pub struct SubMsgView {
    pub id: u64,
    pub contract_addr: Seq<char>,
    pub msg: Seq<u8>,
    pub reply_on: ReplyOn,
}

impl View for SubMsg {
    type V = SubMsgView;

    open spec fn view(&self) -> SubMsgView {
        SubMsgView {
            id: self.id,
            contract_addr: self.contract_addr@,
            msg: self.msg@,
            reply_on: self.reply_on,
        }
    }
}

impl SubMsg {
    /// A call that is reported back only when it succeeded.
    pub fn reply_on_success(contract_addr: String, msg: Vec<u8>, id: u64) -> (sub_msg: SubMsg)
        ensures
            sub_msg@ == (SubMsgView {
                id,
                contract_addr: contract_addr@,
                msg: msg@,
                reply_on: ReplyOn::Success,
            }),
    {
        SubMsg { id, contract_addr, msg, reply_on: ReplyOn::Success }
    }
}

/// What one invocation hands to the host: the calls to deliver, the attributes
/// to publish, and at most one piece of result data.
#[derive(Clone, Debug, PartialEq, Eq)]
pub struct Response {
    pub messages: Vec<SubMsg>,
    pub attributes: Vec<Attribute>,
    pub data: Option<Vec<u8>>,
}

/// What a `Response` holds.
#[verifier::ext_equal]
pub struct ResponseView {
    pub messages: Seq<SubMsgView>,
    pub attributes: Seq<(Seq<char>, Seq<char>)>,
    pub data: Option<Seq<u8>>,
}

impl View for Response {
    type V = ResponseView;

    open spec fn view(&self) -> ResponseView {
        ResponseView {
            messages: self.messages@.map_values(|m: SubMsg| m@),
            attributes: self.attributes@.map_values(|a: Attribute| a@),
            data: match self.data {
                Some(data) => Some(data@),
                None => None,
            },
        }
    }
}

impl ResponseView {
    /// The response that holds nothing.
    pub open spec fn empty() -> ResponseView {
        ResponseView { messages: Seq::empty(), attributes: Seq::empty(), data: None }
    }

    /// This response with `data` as its result data, in place of any it had.
    pub open spec fn set_data(self, data: Seq<u8>) -> ResponseView {
        ResponseView { data: Some(data), ..self }
    }

    /// This response with one more attribute, after those it had.
    pub open spec fn add_attribute(self, key: Seq<char>, value: Seq<char>) -> ResponseView {
        ResponseView { attributes: self.attributes.push((key, value)), ..self }
    }

    /// This response with one more call, after those it had.
    pub open spec fn add_submessage(self, msg: SubMsgView) -> ResponseView {
        ResponseView { messages: self.messages.push(msg), ..self }
    }
}

impl Response {
    /// A response that holds nothing.
    pub fn new() -> (response: Response)
        ensures
            response@ == ResponseView::empty(),
    {
        let response = Response { messages: Vec::new(), attributes: Vec::new(), data: None };
        assert(response@.messages =~= Seq::empty());
        assert(response@.attributes =~= Seq::empty());
        response
    }

    /// Sets the result data. A second call replaces what the first one set.
    pub fn set_data(self, data: Vec<u8>) -> (response: Response)
        ensures
            response@ == self@.set_data(data@),
    {
        Response { messages: self.messages, attributes: self.attributes, data: Some(data) }
    }

    /// Adds an attribute after those already there.
    pub fn add_attribute(self, key: String, value: String) -> (response: Response)
        ensures
            response@ == self@.add_attribute(key@, value@),
    {
        let mut attributes = self.attributes;
        attributes.push(Attribute { key, value });
        let response = Response { messages: self.messages, attributes, data: self.data };
        assert(response@.attributes =~= self@.attributes.push((key@, value@)));
        response
    }

    /// Adds a call after those already there.
    pub fn add_submessage(self, msg: SubMsg) -> (response: Response)
        ensures
            response@ == self@.add_submessage(msg@),
    {
        let mut messages = self.messages;
        messages.push(msg);
        let response = Response { messages, attributes: self.attributes, data: self.data };
        assert(response@.messages =~= self@.messages.push(msg@));
        response
    }
}

/// How a sub-call ended, as the host reports it.
#[derive(Clone, Debug, PartialEq, Eq)]
pub enum SubMsgResult {
    /// The called node ran the command; `data` is the result data it set, if
    /// it set any.
    Success { data: Option<Vec<u8>> },
    /// The sub-call failed, with the host's message.
    Failure { error: String },
}

impl SubMsgResult {
    /// The data that a sub-call answered with: there is none after a failure,
    /// after a success that set no data, and after one that set empty data.
    pub open spec fn payload(self) -> Option<Seq<u8>> {
        match self {
            SubMsgResult::Success { data: Some(data) } => if data@.len() > 0 {
                Some(data@)
            } else {
                None
            },
            _ => None,
        }
    }
}

/// The host's report that a sub-call has ended: the identifier that the call
/// was sent under, and how it ended.
#[derive(Clone, Debug, PartialEq, Eq)]
pub struct Reply {
    pub id: u64,
    pub result: SubMsgResult,
}

} // verus!
