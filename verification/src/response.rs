//! What a transition hands back: a summary of key and value pairs for
//! observers, and the commands it issues to the token ledger.

use vstd::prelude::*;
use crate::error::ContractError;
use crate::ledger::Cw20ExecuteMsg;

verus! {

/// One entry of a transition's summary.
#[derive(Debug, PartialEq, Eq)]
pub struct Attribute {
    pub key: String,
    pub value: String,
}

/// The result of a transition that committed.
#[derive(Debug, PartialEq, Eq)]
pub struct Response {
    /// The summary: the action's name first, then its identifiers and amounts.
    pub attributes: Vec<Attribute>,
    /// The commands for the token ledger, in the name of the caller.
    pub messages: Vec<Cw20ExecuteMsg>,
}

/// The keys and values of a summary, as text.
pub open spec fn attributes_view(attributes: Seq<Attribute>) -> Seq<(Seq<char>, Seq<char>)> {
    Seq::new(attributes.len(), |i: int| (attributes[i].key@, attributes[i].value@))
}

impl Response {
    /// The summary of this response, as text.
    pub open spec fn summary(&self) -> Seq<(Seq<char>, Seq<char>)> {
        attributes_view(self.attributes@)
    }

    /// A response without summary and without commands.
    pub fn new() -> (r: Response)
        ensures
            r.summary() == Seq::<(Seq<char>, Seq<char>)>::empty(),
            r.messages@ == Seq::<Cw20ExecuteMsg>::empty(),
    {
        let r = Response { attributes: Vec::new(), messages: Vec::new() };
        assert(r.summary() =~= Seq::<(Seq<char>, Seq<char>)>::empty());
        r
    }

    /// This response with one more entry at the end of its summary.
    pub fn add_attribute(self, key: &str, value: String) -> (r: Response)
        ensures
            r.summary() == self.summary().push((key@, value@)),
            r.messages == self.messages,
    {
        let mut r = self;
        let key = key.to_string();
        r.attributes.push(Attribute { key, value });
        assert(r.summary() =~= self.summary().push((key@, value@)));
        r
    }

    /// This response with one more command for the ledger.
    pub fn add_message(self, msg: Cw20ExecuteMsg) -> (r: Response)
        ensures
            r.attributes == self.attributes,
            r.messages@ == self.messages@.push(msg),
    {
        let mut r = self;
        r.messages.push(msg);
        r
    }
}

/// `res` hands `msg` on to the ledger as it is, and says nothing else.
pub open spec fn forwards(res: Result<Response, ContractError>, msg: Cw20ExecuteMsg) -> bool {
    &&& res is Ok
    &&& res->Ok_0.summary().len() == 0
    &&& res->Ok_0.messages@ =~= seq![msg]
}

/// Hands a command on to the ledger as it is.
pub fn forward(msg: Cw20ExecuteMsg) -> (res: Result<Response, ContractError>)
    ensures
        forwards(res, msg),
{
    Ok(Response::new().add_message(msg))
}

} // verus!
