//! The envelope protocol: the registry of method names and the uniform
//! response.

use vstd::prelude::*;
use vstd::string::*;

verus! {

/// Declares `serde_json::Value`, the result of a request, as an opaque type:
/// a response carries it and reads nothing from it.
#[verifier::external_type_specification]
#[verifier::external_body]
pub struct ExValue(serde_json::Value);

/// The methods that the gateway serves.
#[derive(Clone, Copy, Debug, PartialEq, Eq, Structural)]
pub enum MethodTag {
    LookupBlock,
    Shards,
    BlockHeader,
    BlockTransactions,
    AddressInformation,
    ExtendedAddressInformation,
    Transactions,
    SendBoc,
    MasterchainInfo,
}

/// The name under which a method travels in the `method` field.
pub open spec fn wire_name(tag: MethodTag) -> Seq<char> {
    match tag {
        MethodTag::LookupBlock => "lookupBlock"@,
        MethodTag::Shards => "shards"@,
        MethodTag::BlockHeader => "getBlockHeader"@,
        MethodTag::BlockTransactions => "getBlockTransactions"@,
        MethodTag::AddressInformation => "getAddressInformation"@,
        MethodTag::ExtendedAddressInformation => "getExtendedAddressInformation"@,
        MethodTag::Transactions => "getTransactions"@,
        MethodTag::SendBoc => "sendBoc"@,
        MethodTag::MasterchainInfo => "getMasterchainInfo"@,
    }
}

/// The method that a name selects: the one whose wire name it is, or none.
pub open spec fn tag_named(name: Seq<char>) -> Option<MethodTag> {
    if name == "lookupBlock"@ {
        Some(MethodTag::LookupBlock)
    } else if name == "shards"@ {
        Some(MethodTag::Shards)
    } else if name == "getBlockHeader"@ {
        Some(MethodTag::BlockHeader)
    } else if name == "getBlockTransactions"@ {
        Some(MethodTag::BlockTransactions)
    } else if name == "getAddressInformation"@ {
        Some(MethodTag::AddressInformation)
    } else if name == "getExtendedAddressInformation"@ {
        Some(MethodTag::ExtendedAddressInformation)
    } else if name == "getTransactions"@ {
        Some(MethodTag::Transactions)
    } else if name == "sendBoc"@ {
        Some(MethodTag::SendBoc)
    } else if name == "getMasterchainInfo"@ {
        Some(MethodTag::MasterchainInfo)
    } else {
        None
    }
}

/// Whether `name` is the name of some method.
pub open spec fn known_method(name: Seq<char>) -> bool {
    tag_named(name) is Some
}

/// The nine names differ from one another.
pub proof fn lemma_wire_names_distinct(a: MethodTag, b: MethodTag)
    requires
        wire_name(a) == wire_name(b),
    ensures
        a == b,
{
    reveal_strlit("lookupBlock");
    reveal_strlit("shards");
    reveal_strlit("getBlockHeader");
    reveal_strlit("getBlockTransactions");
    reveal_strlit("getAddressInformation");
    reveal_strlit("getExtendedAddressInformation");
    reveal_strlit("getTransactions");
    reveal_strlit("sendBoc");
    reveal_strlit("getMasterchainInfo");
    if a != b {
        let x = wire_name(a);
        let y = wire_name(b);
        assert(x.len() == y.len());
        assert(x[0] == y[0]);
        assert(x[3] == y[3]);
        assert(x[8] == y[8]);
    }
}

/// Whether two texts are equal, character by character.
pub(crate) fn same_text(left: &str, right: &str) -> (same: bool)
    ensures
        same == (left@ == right@),
{
    let l = String::from_str(left);
    let r = String::from_str(right);
    l == r
}

impl MethodTag {
    /// The wire name of this method.
    pub fn name(&self) -> (name: &'static str)
        ensures
            name@ == wire_name(*self),
    {
        match self {
            MethodTag::LookupBlock => "lookupBlock",
            MethodTag::Shards => "shards",
            MethodTag::BlockHeader => "getBlockHeader",
            MethodTag::BlockTransactions => "getBlockTransactions",
            MethodTag::AddressInformation => "getAddressInformation",
            MethodTag::ExtendedAddressInformation => "getExtendedAddressInformation",
            MethodTag::Transactions => "getTransactions",
            MethodTag::SendBoc => "sendBoc",
            MethodTag::MasterchainInfo => "getMasterchainInfo",
        }
    }

    /// Selects the method that a `method` field names. A name outside the
    /// registry selects nothing, whatever else the request holds.
    pub fn from_name(name: &str) -> (tag: Option<MethodTag>)
        ensures
            tag == tag_named(name@),
            tag matches Some(t) ==> name@ == wire_name(t),
    {
        if same_text(name, "lookupBlock") {
            Some(MethodTag::LookupBlock)
        } else if same_text(name, "shards") {
            Some(MethodTag::Shards)
        } else if same_text(name, "getBlockHeader") {
            Some(MethodTag::BlockHeader)
        } else if same_text(name, "getBlockTransactions") {
            Some(MethodTag::BlockTransactions)
        } else if same_text(name, "getAddressInformation") {
            Some(MethodTag::AddressInformation)
        } else if same_text(name, "getExtendedAddressInformation") {
            Some(MethodTag::ExtendedAddressInformation)
        } else if same_text(name, "getTransactions") {
            Some(MethodTag::Transactions)
        } else if same_text(name, "sendBoc") {
            Some(MethodTag::SendBoc)
        } else if same_text(name, "getMasterchainInfo") {
            Some(MethodTag::MasterchainInfo)
        } else {
            None
        }
    }
}

/// A name and its tag determine each other: the wire name of a tag selects
/// that tag, and a name that selects a tag is that tag's wire name.
pub proof fn lemma_registry_round_trip(tag: MethodTag, name: Seq<char>)
    ensures
        tag_named(wire_name(tag)) == Some(tag),
        tag_named(name) == Some(tag) <==> name == wire_name(tag),
{
    let found = tag_named(wire_name(tag));
    assert(found is Some);
    assert(wire_name(found->Some_0) == wire_name(tag));
    lemma_wire_names_distinct(found->Some_0, tag);
}

/// The one error code that the gateway reports.
pub const INTERNAL_ERROR: i32 = -32603;

/// The error of a failed request.
#[derive(Clone, Debug, PartialEq, Eq)]
pub struct JsonError {
    pub code: i32,
    pub message: String,
}

/// The response to one request.
#[derive(Clone, Debug, PartialEq, Eq)]
pub struct JsonResponse {
    pub ok: bool,
    pub error: Option<JsonError>,
    pub result: Option<serde_json::Value>,
    pub jsonrpc: String,
    pub id: u64,
}

impl JsonResponse {
    /// A response carries a result or an error, never both and never
    /// neither, `ok` says which, and the protocol version is `2.0`.
    pub open spec fn well_formed(&self) -> bool {
        &&& self.ok == self.result is Some
        &&& self.ok == self.error is None
        &&& self.jsonrpc@ == "2.0"@
    }

    /// The response to a request that succeeded with `result`.
    pub fn new(id: u64, result: serde_json::Value) -> (response: JsonResponse)
        ensures
            response.well_formed(),
            response.ok,
            response.id == id,
            response.result == Some(result),
    {
        JsonResponse {
            ok: true,
            error: None,
            result: Some(result),
            jsonrpc: String::from_str("2.0"),
            id,
        }
    }

    /// The response to a request that failed with `message`.
    pub fn error(id: u64, message: String) -> (response: JsonResponse)
        ensures
            response.well_formed(),
            !response.ok,
            response.id == id,
            response.error matches Some(e) && e.code == INTERNAL_ERROR && e.message == message,
    {
        JsonResponse {
            ok: false,
            error: Some(JsonError { code: INTERNAL_ERROR, message }),
            result: None,
            jsonrpc: String::from_str("2.0"),
            id,
        }
    }

    /// Wraps the outcome of a request: the response echoes the request's id,
    /// and it is `ok` exactly where the outcome is a result.
    pub fn from_outcome(id: u64, outcome: Result<serde_json::Value, String>) -> (response:
        JsonResponse)
        ensures
            response.well_formed(),
            response.id == id,
            response.ok == outcome is Ok,
            response.ok == response.error is None,
            match outcome {
                Ok(v) => response.result == Some(v),
                Err(m) => response.error matches Some(e) && e.code == INTERNAL_ERROR && e.message
                    == m,
            },
    {
        match outcome {
            Ok(v) => JsonResponse::new(id, v),
            Err(m) => JsonResponse::error(id, m),
        }
    }
}

} // verus!
