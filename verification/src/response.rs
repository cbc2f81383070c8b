//! What a successful command hands back to the host: a list of string
//! attributes describing the transition, and, for send commands, one
//! outbound notification addressed to the receiving contract.

use vstd::prelude::*;
use crate::msg::Binary;

verus! {

/// One string-keyed, string-valued event attribute.
#[derive(Clone, Debug, PartialEq, Eq)]
pub struct Attribute {
    pub key: String,
    pub value: String,
}

/// Builds one attribute.
pub fn attr(key: &str, value: &str) -> (r: Attribute)
    ensures
        r.key@ == key@,
        r.value@ == value@,
{
    Attribute { key: key.to_owned(), value: value.to_owned() }
}

/// The notification a send command delivers to the receiving contract.
#[derive(Clone, Debug, PartialEq, Eq)]
pub struct Cw721ReceiveMsg {
    /// Who sent the token.
    pub sender: String,
    /// Which token was sent.
    pub token_id: String,
    /// The caller-supplied payload, passed through unmodified.
    pub msg: Binary,
}

/// One outbound message, addressed to a contract.
#[derive(Clone, Debug, PartialEq, Eq)]
pub struct OutboundMsg {
    /// The contract the message is addressed to.
    pub contract: String,
    /// The receive notification it carries.
    pub msg: Cw721ReceiveMsg,
}

/// The result of a successful command.
#[derive(Clone, Debug, PartialEq, Eq)]
pub struct Response {
    /// Event attributes, in the order they were added.
    pub attributes: Vec<Attribute>,
    /// Outbound messages, in the order they were added.
    pub messages: Vec<OutboundMsg>,
}

impl Response {
    /// A response with no attributes and no messages.
    pub fn new() -> (r: Self)
        ensures
            r.attributes@ == Seq::<Attribute>::empty(),
            r.messages@ == Seq::<OutboundMsg>::empty(),
    {
        Response { attributes: Vec::new(), messages: Vec::new() }
    }

    /// Appends one attribute.
    pub fn add_attribute(self, key: &str, value: &str) -> (r: Self)
        ensures
            r.attributes@.len() == self.attributes@.len() + 1,
            r.attributes@ == self.attributes@.push(r.attributes@.last()),
            r.attributes@.last().key@ == key@,
            r.attributes@.last().value@ == value@,
            r.messages == self.messages,
    {
        let mut r = self;
        r.attributes.push(Attribute { key: key.to_owned(), value: value.to_owned() });
        r
    }

    /// Appends one outbound message.
    pub fn add_message(self, msg: OutboundMsg) -> (r: Self)
        ensures
            r.messages@ == self.messages@.push(msg),
            r.attributes == self.attributes,
    {
        let mut r = self;
        r.messages.push(msg);
        r
    }
}

impl Default for Response {
    /// Same as an empty response.
    fn default() -> (r: Self)
        ensures
            r.attributes@ == Seq::<Attribute>::empty(),
            r.messages@ == Seq::<OutboundMsg>::empty(),
    {
        Response::new()
    }
}

/// `a` has key `k` and value `v`.
pub open spec fn attr_is(a: Attribute, k: Seq<char>, v: Seq<char>) -> bool {
    a.key@ == k && a.value@ == v
}

} // verus!
