//! Reply correlation for a message-passing node.
//!
//! A node accepts a command, may dispatch a sub-command to another node, and
//! forwards what that node answered as its own result once the host reports
//! the sub-call's completion under the node's single correlation identifier.

pub mod codec;
pub mod contract;
pub mod error;
pub mod msg;
pub mod response;

pub use contract::{
    echo_response, execute, execute_echo, execute_sub_call, instantiate, normalize_address, reply,
    reply_response, sub_call_response, Routed, REPLY_ID,
};
pub use error::ContractError;
pub use msg::{EchoDataMsg, ExecuteMsg, InstantiateMsg};
pub use response::{Attribute, Reply, ReplyOn, Response, SubMsg, SubMsgResult};
