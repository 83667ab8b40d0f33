//! Identifiers, heights and the other small values that every state machine shares.

use crate::text::{numbered, numbered_text, parse_numbered, write_numbered};
use vstd::prelude::*;

verus! {

/// A position on a counterparty ledger: a revision and a block number within it.
/// Heights are ordered by revision first. The zero height stands for "not set".
#[derive(Clone, Copy, Debug, PartialEq, Eq, Structural)]
pub struct Height {
    pub revision: u64,
    pub height: u64,
}

impl Height {
    /// `self` lies strictly before `other`.
    pub open spec fn before(self, other: Height) -> bool {
        self.revision < other.revision || (self.revision == other.revision && self.height
            < other.height)
    }

    /// `self` lies before `other` or is `other`.
    pub open spec fn at_or_before(self, other: Height) -> bool {
        self == other || self.before(other)
    }

    /// The height that stands for "not set".
    pub open spec fn unset(self) -> bool {
        self.revision == 0 && self.height == 0
    }

    pub fn new(revision: u64, height: u64) -> (h: Height)
        ensures
            h == (Height { revision, height }),
    {
        Height { revision, height }
    }

    pub fn zero() -> (h: Height)
        ensures
            h.unset(),
            h == (Height { revision: 0, height: 0 }),
    {
        Height { revision: 0, height: 0 }
    }

    pub fn is_zero(&self) -> (r: bool)
        ensures
            r == self.unset(),
    {
        self.revision == 0 && self.height == 0
    }

    pub fn lt(&self, other: &Height) -> (r: bool)
        ensures
            r == self.before(*other),
    {
        self.revision < other.revision || (self.revision == other.revision && self.height
            < other.height)
    }

    pub fn le(&self, other: &Height) -> (r: bool)
        ensures
            r == self.at_or_before(*other),
    {
        (self.revision == other.revision && self.height == other.height) || self.lt(other)
    }
}

/// The kind of ledger that a light client follows.
#[derive(Clone, Copy, Debug, PartialEq, Eq, Structural)]
pub enum ClientType {
    Tendermint,
    Grandpa,
    Beefy,
    Mock,
}

impl ClientType {
    /// What stands before the number in the name of a client of this type.
    pub open spec fn prefix(self) -> Seq<char> {
        match self {
            ClientType::Tendermint => "07-tendermint-"@,
            ClientType::Grandpa => "10-grandpa-"@,
            ClientType::Beefy => "11-beefy-"@,
            ClientType::Mock => "9999-mock-"@,
        }
    }

    /// What stands before the number in the name of a client of this type.
    pub fn prefix_str(&self) -> (prefix: &'static str)
        ensures
            prefix@ == self.prefix(),
    {
        match self {
            ClientType::Tendermint => "07-tendermint-",
            ClientType::Grandpa => "10-grandpa-",
            ClientType::Beefy => "11-beefy-",
            ClientType::Mock => "9999-mock-",
        }
    }
}

/// Names a light client: its type, and the number under which the store keeps its
/// record. A name of another type than the record has names no client.
#[derive(Clone, Copy, Debug, PartialEq, Eq, Structural)]
pub struct ClientId {
    pub client_type: ClientType,
    pub counter: u64,
}

impl ClientId {
    /// The client of type `client_type` with the number `counter`.
    pub fn new(client_type: ClientType, counter: u64) -> (id: ClientId)
        ensures
            id == (ClientId { client_type, counter }),
    {
        ClientId { client_type, counter }
    }

    /// The name under which the client travels: the prefix of its type and its number.
    pub open spec fn name(self) -> Seq<char> {
        numbered_text(self.client_type.prefix(), self.counter)
    }

    /// The client that `text` names, read as a client of type `client_type`.
    pub open spec fn named_as(text: Seq<char>, client_type: ClientType) -> Option<ClientId> {
        match numbered(text, client_type.prefix()) {
            Some(counter) => Some(ClientId { client_type, counter }),
            None => None,
        }
    }

    /// The client that `text` names: of the first type whose prefix the text begins with
    /// and whose number it writes.
    pub open spec fn named(text: Seq<char>) -> Option<ClientId> {
        if Self::named_as(text, ClientType::Tendermint).is_some() {
            Self::named_as(text, ClientType::Tendermint)
        } else if Self::named_as(text, ClientType::Grandpa).is_some() {
            Self::named_as(text, ClientType::Grandpa)
        } else if Self::named_as(text, ClientType::Beefy).is_some() {
            Self::named_as(text, ClientType::Beefy)
        } else {
            Self::named_as(text, ClientType::Mock)
        }
    }

    /// Reads the name of a client of the type `client_type`.
    pub fn parse_as(text: &str, client_type: ClientType) -> (id: Option<ClientId>)
        ensures
            id == Self::named_as(text@, client_type),
    {
        match parse_numbered(text, client_type.prefix_str()) {
            Some(counter) => Some(ClientId { client_type, counter }),
            None => None,
        }
    }

    /// Reads the name of a client, of whatever type.
    pub fn parse(text: &str) -> (id: Option<ClientId>)
        ensures
            id == Self::named(text@),
    {
        let tendermint = Self::parse_as(text, ClientType::Tendermint);
        if tendermint.is_some() {
            return tendermint;
        }
        let grandpa = Self::parse_as(text, ClientType::Grandpa);
        if grandpa.is_some() {
            return grandpa;
        }
        let beefy = Self::parse_as(text, ClientType::Beefy);
        if beefy.is_some() {
            return beefy;
        }
        Self::parse_as(text, ClientType::Mock)
    }

    /// Writes the name of the client.
    pub fn to_text(&self) -> (text: String)
        ensures
            text@ == self.name(),
    {
        write_numbered(self.client_type.prefix_str(), self.counter)
    }
}

/// Names a connection: the number under which the store keeps its record.
#[derive(Clone, Copy, Debug, PartialEq, Eq, Structural)]
pub struct ConnectionId(pub u64);

/// Names a channel: the number under which the store keeps its record.
#[derive(Clone, Copy, Debug, PartialEq, Eq, Structural)]
pub struct ChannelId(pub u64);

impl ConnectionId {
    /// The name under which the connection travels: `connection-` and its number.
    pub open spec fn name(self) -> Seq<char> {
        numbered_text("connection-"@, self.0)
    }

    /// The connection that `text` names.
    pub open spec fn named(text: Seq<char>) -> Option<ConnectionId> {
        match numbered(text, "connection-"@) {
            Some(n) => Some(ConnectionId(n)),
            None => None,
        }
    }

    /// Reads the name of a connection.
    pub fn parse(text: &str) -> (id: Option<ConnectionId>)
        ensures
            id == Self::named(text@),
    {
        match parse_numbered(text, "connection-") {
            Some(n) => Some(ConnectionId(n)),
            None => None,
        }
    }

    /// Writes the name of the connection.
    pub fn to_text(&self) -> (text: String)
        ensures
            text@ == self.name(),
    {
        write_numbered("connection-", self.0)
    }
}

impl ChannelId {
    /// The name under which the channel travels: `channel-` and its number.
    pub open spec fn name(self) -> Seq<char> {
        numbered_text("channel-"@, self.0)
    }

    /// The channel that `text` names.
    pub open spec fn named(text: Seq<char>) -> Option<ChannelId> {
        match numbered(text, "channel-"@) {
            Some(n) => Some(ChannelId(n)),
            None => None,
        }
    }

    /// Reads the name of a channel.
    pub fn parse(text: &str) -> (id: Option<ChannelId>)
        ensures
            id == Self::named(text@),
    {
        match parse_numbered(text, "channel-") {
            Some(n) => Some(ChannelId(n)),
            None => None,
        }
    }

    /// Writes the name of the channel.
    pub fn to_text(&self) -> (text: String)
        ensures
            text@ == self.name(),
    {
        write_numbered("channel-", self.0)
    }
}

/// Whether a channel delivers packets in the order they were sent.
#[derive(Clone, Copy, Debug, PartialEq, Eq, Structural)]
pub enum Order {
    Ordered,
    Unordered,
}

impl Order {
    /// The ordering that `code` stands for on the wire: 1 for unordered, 2 for ordered.
    pub open spec fn coded(code: i32) -> Option<Order> {
        if code == 1 {
            Some(Order::Unordered)
        } else if code == 2 {
            Some(Order::Ordered)
        } else {
            None
        }
    }

    /// Reads the code of an ordering.
    pub fn from_code(code: i32) -> (order: Option<Order>)
        ensures
            order == Self::coded(code),
    {
        if code == 1 {
            Some(Order::Unordered)
        } else if code == 2 {
            Some(Order::Ordered)
        } else {
            None
        }
    }
}

/// Names a port: the text under which an application module is reached.
#[derive(Debug)]
pub struct PortId {
    pub name: String,
}

impl View for PortId {
    type V = Seq<char>;

    open spec fn view(&self) -> Seq<char> {
        self.name@
    }
}

impl PortId {
    pub fn new(name: &str) -> (p: PortId)
        ensures
            p@ == name@,
    {
        PortId { name: name.to_owned() }
    }

    pub fn same(&self, other: &PortId) -> (r: bool)
        ensures
            r == (self@ == other@),
    {
        self.name == other.name
    }

    pub fn as_str(&self) -> (s: &str)
        ensures
            s@ == self@,
    {
        self.name.as_str()
    }
}

impl Clone for PortId {
    fn clone(&self) -> (p: PortId)
        ensures
            p@ == self@,
    {
        PortId { name: self.name.clone() }
    }
}

/// Names an application module.
#[derive(Debug)]
pub struct ModuleId {
    pub name: String,
}

impl View for ModuleId {
    type V = Seq<char>;

    open spec fn view(&self) -> Seq<char> {
        self.name@
    }
}

impl ModuleId {
    pub fn new(name: &str) -> (m: ModuleId)
        ensures
            m@ == name@,
    {
        ModuleId { name: name.to_owned() }
    }

    pub fn same(&self, other: &ModuleId) -> (r: bool)
        ensures
            r == (self@ == other@),
    {
        self.name == other.name
    }
}

impl Clone for ModuleId {
    fn clone(&self) -> (m: ModuleId)
        ensures
            m@ == self@,
    {
        ModuleId { name: self.name.clone() }
    }
}

/// The account that submitted a message.
#[derive(Debug)]
pub struct Signer {
    pub account: String,
}

impl View for Signer {
    type V = Seq<char>;

    open spec fn view(&self) -> Seq<char> {
        self.account@
    }
}

impl Signer {
    pub fn new(account: &str) -> (s: Signer)
        ensures
            s@ == account@,
    {
        Signer { account: account.to_owned() }
    }
}

impl Clone for Signer {
    fn clone(&self) -> (s: Signer)
        ensures
            s@ == self@,
    {
        Signer { account: self.account.clone() }
    }
}

/// Copies a byte string.
pub fn copy_bytes(bytes: &Vec<u8>) -> (out: Vec<u8>)
    ensures
        out@ == bytes@,
{
    let mut out: Vec<u8> = Vec::new();
    let mut i: usize = 0;
    while i < bytes.len()
        invariant
            i <= bytes.len(),
            out@ == bytes@.subrange(0, i as int),
        decreases bytes.len() - i,
    {
        out.push(bytes[i]);
        i += 1;
    }
    out
}

/// Whether two byte strings hold the same bytes.
pub fn same_bytes(a: &Vec<u8>, b: &Vec<u8>) -> (r: bool)
    ensures
        r == (a@ == b@),
{
    if a.len() != b.len() {
        return false;
    }
    let mut i: usize = 0;
    while i < a.len()
        invariant
            i <= a.len(),
            a.len() == b.len(),
            a@.subrange(0, i as int) == b@.subrange(0, i as int),
        decreases a.len() - i,
    {
        if a[i] != b[i] {
            return false;
        }
        assert(a@.subrange(0, i + 1) == a@.subrange(0, i as int).push(a@[i as int]));
        assert(b@.subrange(0, i + 1) == b@.subrange(0, i as int).push(b@[i as int]));
        i += 1;
    }
    assert(a@.subrange(0, a.len() as int) == a@);
    assert(b@.subrange(0, b.len() as int) == b@);
    true
}

} // verus!
