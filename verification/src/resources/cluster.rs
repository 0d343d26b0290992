//! Cluster-wide resources: the log, the identifier allocator, the options,
//! the status and the task list.

use vstd::prelude::*;
use vstd::string::StringExecFns;
use crate::codec::pairs_view;
use crate::resources::query::{decimal, decimal_string};

verus! {

/// The query of a single parameter with a decimal value, or of none.
pub open spec fn number_query(name: Seq<char>, value: Option<u64>) -> Seq<(Seq<char>, Seq<char>)> {
    match value {
        Some(n) => seq![(name, decimal(n as nat))],
        None => Seq::empty(),
    }
}

/// The query of a single parameter with a decimal value; an unset value
/// leaves the parameter out.
fn number_pairs(name: &str, value: Option<u64>) -> (r: Vec<(String, String)>)
    ensures
        pairs_view(r@) == number_query(name@, value),
{
    let mut pairs: Vec<(String, String)> = Vec::new();
    if let Some(n) = value {
        pairs.push((String::from_str(name), decimal_string(n)));
    }
    assert(pairs_view(pairs@) =~= number_query(name@, value));
    pairs
}

/// A field that older servers send as a string and newer ones as a number.
#[derive(Clone, Debug, PartialEq, Eq)]
pub enum IntOrString {
    Int(u64),
    Str(String),
}

/// One line of the cluster log.
#[derive(Clone, Debug, PartialEq, Eq)]
pub struct Log {
    pub id: String,
    /// Sent as `msg`.
    pub message: String,
    pub node: String,
    pub pid: usize,
    /// Sent as `pri`.
    pub priority: usize,
    pub tag: String,
    pub time: usize,
    pub uid: String,
    pub user: String,
}

/// Query options of the cluster log.
#[derive(Clone, Debug, PartialEq, Eq, Default)]
pub struct LogOptions {
    /// Upper bound on the number of lines; left out of the query when unset.
    pub max: Option<u64>,
}

impl LogOptions {
    /// The options as query parameters: `max` in decimal where it is set.
    pub fn to_query(&self) -> (r: Vec<(String, String)>)
        ensures
            pairs_view(r@) == number_query("max"@, self.max),
    {
        number_pairs("max", self.max)
    }
}

/// The next free guest identifier, as the server spells it.
#[derive(Clone, Debug, PartialEq, Eq)]
pub struct NextId(pub String);

/// Query options of the identifier allocator.
#[derive(Clone, Debug, PartialEq, Eq, Default)]
pub struct NextIdOptions {
    /// An identifier to test; left out of the query when unset.
    pub vmid: Option<u64>,
}

impl NextIdOptions {
    /// The options as query parameters: `vmid` in decimal where it is set.
    pub fn to_query(&self) -> (r: Vec<(String, String)>)
        ensures
            pairs_view(r@) == number_query("vmid"@, self.vmid),
    {
        number_pairs("vmid", self.vmid)
    }
}

/// Migration settings of the cluster.
#[derive(Clone, Debug, PartialEq, Eq)]
pub struct MigrationOptions {
    pub network: String,
    /// Sent as `type`.
    pub type_: String,
}

/// Data-center options.
#[derive(Clone, Debug, PartialEq, Eq)]
pub struct Options {
    pub keyboard: String,
    pub mac_prefix: String,
    pub migration: MigrationOptions,
}

/// The kinds of resource that a listing can be narrowed to; sent in lower
/// case.
#[derive(Clone, Copy, Debug, PartialEq, Eq)]
pub enum ResourceType {
    Vm,
    Storage,
    Node,
}

impl ResourceType {
    /// The kind as it is sent.
    pub open spec fn wire_name(self) -> Seq<char> {
        match self {
            ResourceType::Vm => "vm"@,
            ResourceType::Storage => "storage"@,
            ResourceType::Node => "node"@,
        }
    }

    /// The kind as it is sent.
    pub fn as_str(self) -> (r: &'static str)
        ensures
            r@ == self.wire_name(),
    {
        match self {
            ResourceType::Vm => "vm",
            ResourceType::Storage => "storage",
            ResourceType::Node => "node",
        }
    }
}

/// Query options of the resource listing.
#[derive(Clone, Debug, PartialEq, Eq, Default)]
pub struct ResourceOptions {
    /// Sent as `type`; left out of the query when unset.
    pub type_: Option<ResourceType>,
}

impl ResourceOptions {
    /// The query that the options stand for.
    pub open spec fn query(&self) -> Seq<(Seq<char>, Seq<char>)> {
        match self.type_ {
            Some(t) => seq![("type"@, t.wire_name())],
            None => Seq::empty(),
        }
    }

    /// The options as query parameters: `type` where a kind is set.
    pub fn to_query(&self) -> (r: Vec<(String, String)>)
        ensures
            pairs_view(r@) == self.query(),
    {
        let mut pairs: Vec<(String, String)> = Vec::new();
        if let Some(t) = self.type_ {
            pairs.push((String::from_str("type"), String::from_str(t.as_str())));
        }
        assert(pairs_view(pairs@) =~= self.query());
        pairs
    }
}

/// One entry of the cluster status, told apart by its `type` member.
#[derive(Clone, Debug, PartialEq, Eq)]
pub enum Status {
    Cluster { id: String, name: String, nodes: usize, quorate: usize, version: usize },
    Node {
        id: String,
        ip: String,
        level: String,
        local: usize,
        name: String,
        nodeid: usize,
        online: usize,
    },
}

/// One entry of the task list.
#[derive(Clone, Debug, PartialEq, Eq)]
pub struct Task {
    pub endtime: usize,
    pub id: String,
    pub node: String,
    pub saved: String,
    pub starttime: IntOrString,
    pub status: String,
    /// Sent as `type`.
    pub type_: String,
    pub upid: String,
    pub user: String,
}

} // verus!
