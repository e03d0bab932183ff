//! The commands of a node and their wire forms.
//!
//! On the wire a message is a JSON object without whitespace, its fields in
//! the order of declaration. A command is an object with one member, named by
//! the command's tag, that holds the command's fields.

use vstd::prelude::*;
use vstd::string::StringSliceAdditionalSpecFns;

use crate::codec::{json_string, json_text};

verus! {

/// The message that creates a node. It carries nothing.
#[derive(Clone, Debug, PartialEq, Eq)]
pub struct InstantiateMsg {}

/// A command to a node.
#[derive(Clone, Debug, PartialEq, Eq)]
pub enum ExecuteMsg {
    /// Answer with an echo of `text`.
    Echo { text: String },
    /// Have the node at `contract` echo `text`, and forward what it answers.
    SubCall { contract: String, text: String },
}

/// The body of the answer to an `Echo` command.
#[derive(Clone, Debug, PartialEq, Eq)]
pub struct EchoDataMsg {
    pub text: String,
}

/// The wire form of an echo body whose text has the JSON literal `text_json`:
/// `{"text":<text_json>}`.
pub open spec fn echo_data_wire(text_json: Seq<u8>) -> Seq<u8> {
    "{\"text\":".spec_bytes() + text_json + "}".spec_bytes()
}

/// The wire form of an `Echo` command whose text has the JSON literal
/// `text_json`: `{"echo":{"text":<text_json>}}`.
pub open spec fn echo_wire(text_json: Seq<u8>) -> Seq<u8> {
    "{\"echo\":{\"text\":".spec_bytes() + text_json + "}}".spec_bytes()
}

/// The wire form of a `SubCall` command whose fields have the JSON literals
/// `contract_json` and `text_json`:
/// `{"sub_call":{"contract":<contract_json>,"text":<text_json>}}`.
pub open spec fn sub_call_wire(contract_json: Seq<u8>, text_json: Seq<u8>) -> Seq<u8> {
    "{\"sub_call\":{\"contract\":".spec_bytes() + contract_json + ",\"text\":".spec_bytes()
        + text_json + "}}".spec_bytes()
}

/// Frames the JSON literal of a text as an echo body.
pub fn frame_echo_data(text_json: &[u8]) -> (wire: Vec<u8>)
    ensures
        wire@ == echo_data_wire(text_json@),
{
    let mut wire: Vec<u8> = Vec::new();
    wire.extend_from_slice("{\"text\":".as_bytes());
    wire.extend_from_slice(text_json);
    wire.extend_from_slice("}".as_bytes());
    wire
}

/// Frames the JSON literal of a text as an `Echo` command.
pub fn frame_echo(text_json: &[u8]) -> (wire: Vec<u8>)
    ensures
        wire@ == echo_wire(text_json@),
{
    let mut wire: Vec<u8> = Vec::new();
    wire.extend_from_slice("{\"echo\":{\"text\":".as_bytes());
    wire.extend_from_slice(text_json);
    wire.extend_from_slice("}}".as_bytes());
    wire
}

/// Frames the JSON literals of a target and a text as a `SubCall` command.
pub fn frame_sub_call(contract_json: &[u8], text_json: &[u8]) -> (wire: Vec<u8>)
    ensures
        wire@ == sub_call_wire(contract_json@, text_json@),
{
    let mut wire: Vec<u8> = Vec::new();
    wire.extend_from_slice("{\"sub_call\":{\"contract\":".as_bytes());
    wire.extend_from_slice(contract_json);
    wire.extend_from_slice(",\"text\":".as_bytes());
    wire.extend_from_slice(text_json);
    wire.extend_from_slice("}}".as_bytes());
    wire
}

/// The JSON literal of `text`.
fn json_literal(text: &str) -> (literal: Vec<u8>)
    ensures
        literal@ == json_text(text@),
{
    match json_string(text) {
        Some(literal) => literal,
        None => unreached(),
    }
}

impl EchoDataMsg {
    /// The bytes that stand for this body on the wire.
    pub open spec fn wire(&self) -> Seq<u8> {
        echo_data_wire(json_text(self.text@))
    }

    /// Serializes the body. The same text always gives the same bytes.
    pub fn to_json(&self) -> (wire: Vec<u8>)
        ensures
            wire@ == self.wire(),
    {
        let text_json = json_literal(self.text.as_str());
        frame_echo_data(text_json.as_slice())
    }
}

impl ExecuteMsg {
    /// The bytes that stand for this command on the wire.
    pub open spec fn wire(&self) -> Seq<u8> {
        match self {
            ExecuteMsg::Echo { text } => echo_wire(json_text(text@)),
            ExecuteMsg::SubCall { contract, text } => sub_call_wire(
                json_text(contract@),
                json_text(text@),
            ),
        }
    }

    /// Serializes the command. The same command always gives the same bytes.
    pub fn to_json(&self) -> (wire: Vec<u8>)
        ensures
            wire@ == self.wire(),
    {
        match self {
            ExecuteMsg::Echo { text } => {
                let text_json = json_literal(text.as_str());
                frame_echo(text_json.as_slice())
            },
            ExecuteMsg::SubCall { contract, text } => {
                let contract_json = json_literal(contract.as_str());
                let text_json = json_literal(text.as_str());
                frame_sub_call(contract_json.as_slice(), text_json.as_slice())
            },
        }
    }
}

} // verus!
