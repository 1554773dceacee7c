use crate::lookup::LookupError;
use crate::lookup::LookupTableLevel;
use crate::network::NetworkError;
use crate::node::base_core::SearchError;
use crate::node::waiter::WaiterKind;
use crate::text;
use vstd::prelude::*;

verus! {

/// What a message that leaves the node is for.
#[derive(Copy, Clone, PartialEq, Eq, Debug, Structural)]
pub enum SendPurpose {
    SearchResponse,
    SearchRelay,
    MaxLevelResponse,
    NeighborResponse,
    LinkResponse,
    LinkForward,
    SearchRequest,
    MaxLevelRequest,
    NeighborRequest,
    LinkRequest,
}

impl SendPurpose {
    /// The text that reports a failure to send.
    pub open spec fn failure_text(self) -> Seq<char> {
        match self {
            SendPurpose::SearchResponse => "failed to send response event for search by id"@,
            SendPurpose::SearchRelay => "failed to send relay response event for search by id"@,
            SendPurpose::MaxLevelResponse => "failed to send max level response"@,
            SendPurpose::NeighborResponse => "failed to send neighbor response"@,
            SendPurpose::LinkResponse => "failed to send link response"@,
            SendPurpose::LinkForward => "failed to forward get link request"@,
            SendPurpose::SearchRequest => "failed to send search by id request"@,
            SendPurpose::MaxLevelRequest => "failed to send get max level request"@,
            SendPurpose::NeighborRequest => "failed to send get neighbor request"@,
            SendPurpose::LinkRequest => "failed to send get link request"@,
        }
    }

    /// Returns the text that reports a failure to send.
    pub fn failure_str(self) -> (r: &'static str)
        ensures
            r@ == self.failure_text(),
    {
        match self {
            SendPurpose::SearchResponse => "failed to send response event for search by id",
            SendPurpose::SearchRelay => "failed to send relay response event for search by id",
            SendPurpose::MaxLevelResponse => "failed to send max level response",
            SendPurpose::NeighborResponse => "failed to send neighbor response",
            SendPurpose::LinkResponse => "failed to send link response",
            SendPurpose::LinkForward => "failed to forward get link request",
            SendPurpose::SearchRequest => "failed to send search by id request",
            SendPurpose::MaxLevelRequest => "failed to send get max level request",
            SendPurpose::NeighborRequest => "failed to send get neighbor request",
            SendPurpose::LinkRequest => "failed to send get link request",
        }
    }
}

/// The text that reports a reply channel dropped before the reply.
pub open spec fn dropped_text(kind: WaiterKind) -> Seq<char> {
    match kind {
        WaiterKind::AsyncSearch => "failed to receive search by id response: sender dropped"@,
        WaiterKind::MaxLevel =>
            "failed to receive network response for get max level: sender dropped"@,
        WaiterKind::Neighbor => "failed to receive get neighbor response: sender dropped"@,
        WaiterKind::Link => "failed to receive get link response: sender dropped"@,
    }
}

fn dropped_str(kind: WaiterKind) -> (r: &'static str)
    ensures
        r@ == dropped_text(kind),
{
    match kind {
        WaiterKind::AsyncSearch => "failed to receive search by id response: sender dropped",
        WaiterKind::MaxLevel =>
            "failed to receive network response for get max level: sender dropped",
        WaiterKind::Neighbor => "failed to receive get neighbor response: sender dropped",
        WaiterKind::Link => "failed to receive get link response: sender dropped",
    }
}

/// The text that reports a reply that did not arrive in time.
pub open spec fn timed_out_text(kind: WaiterKind) -> Seq<char> {
    match kind {
        WaiterKind::AsyncSearch => "timed out waiting for search by id response"@,
        WaiterKind::MaxLevel => "timed out waiting for get max level response"@,
        WaiterKind::Neighbor => "timed out waiting for get neighbor response"@,
        WaiterKind::Link => "timed out waiting for get link response"@,
    }
}

fn timed_out_str(kind: WaiterKind) -> (r: &'static str)
    ensures
        r@ == timed_out_text(kind),
{
    match kind {
        WaiterKind::AsyncSearch => "timed out waiting for search by id response",
        WaiterKind::MaxLevel => "timed out waiting for get max level response",
        WaiterKind::Neighbor => "timed out waiting for get neighbor response",
        WaiterKind::Link => "timed out waiting for get link response",
    }
}

/// Why a node could not handle an event or complete a request.
#[derive(PartialEq, Eq, Debug)]
pub enum NodeError {
    /// The local search failed.
    Search(SearchError),
    /// The highest populated level could not be read.
    ReadMaxLevel(LookupError),
    /// A neighbor entry could not be read.
    ReadNeighbor(LookupError),
    /// The lookup table refused to decide a link request.
    DecideLink { level: LookupTableLevel, source: LookupError },
    /// The lookup table refused to apply a confirmed link.
    ApplyLink { level: LookupTableLevel, source: LookupError },
    /// The node does not handle this kind of event.
    UnsupportedEvent,
    /// The network did not take a message.
    Send { purpose: SendPurpose, cause: NetworkError },
    /// The reply channel of a request was dropped.
    ReplyDropped(WaiterKind),
    /// The reply to a request did not arrive in time.
    TimedOut(WaiterKind),
}

impl NodeError {
    /// The text under which the error is reported.
    pub open spec fn text(self) -> Seq<char> {
        match self {
            NodeError::Search(e) => "failed to perform search by id "@ + e.text(),
            NodeError::ReadMaxLevel(e) => "failed to read local max level: "@ + e.text(),
            NodeError::ReadNeighbor(e) => "failed to read local neighbor entry: "@ + e.text(),
            NodeError::DecideLink { level, source } => "failed to decide link at level "@
                + text::decimal(level as nat) + ": "@ + source.text(),
            NodeError::ApplyLink { level, source } => "failed to apply link at level "@
                + text::decimal(level as nat) + ": "@ + source.text(),
            NodeError::UnsupportedEvent => "unsupported event payload type"@,
            NodeError::Send { purpose, cause } => purpose.failure_text() + ": "@ + cause.reason@,
            NodeError::ReplyDropped(kind) => dropped_text(kind),
            NodeError::TimedOut(kind) => timed_out_text(kind),
        }
    }

    /// Returns the text under which the error is reported.
    pub fn message(&self) -> (r: String)
        ensures
            r@ == self.text(),
    {
        match self {
            NodeError::Search(e) => {
                let detail = e.message();
                "failed to perform search by id ".to_owned().concat(detail.as_str())
            },
            NodeError::ReadMaxLevel(e) => {
                let detail = e.message();
                "failed to read local max level: ".to_owned().concat(detail.as_str())
            },
            NodeError::ReadNeighbor(e) => {
                let detail = e.message();
                "failed to read local neighbor entry: ".to_owned().concat(detail.as_str())
            },
            NodeError::DecideLink { level, source } => {
                let number = text::decimal_string(*level);
                let detail = source.message();
                "failed to decide link at level ".to_owned().concat(number.as_str()).concat(
                    ": ",
                ).concat(detail.as_str())
            },
            NodeError::ApplyLink { level, source } => {
                let number = text::decimal_string(*level);
                let detail = source.message();
                "failed to apply link at level ".to_owned().concat(number.as_str()).concat(
                    ": ",
                ).concat(detail.as_str())
            },
            NodeError::UnsupportedEvent => "unsupported event payload type".to_owned(),
            NodeError::Send { purpose, cause } => {
                purpose.failure_str().to_owned().concat(": ").concat(cause.reason.as_str())
            },
            NodeError::ReplyDropped(kind) => dropped_str(*kind).to_owned(),
            NodeError::TimedOut(kind) => timed_out_str(*kind).to_owned(),
        }
    }
}

/// A report of a refused search or link names the level at which it was refused, in decimal
/// notation, and ends with the reason that the table gave. A report of a message that was
/// not sent ends with the reason that the network gave.
pub proof fn law_reports_name_the_level_and_end_with_the_reason(
    level: LookupTableLevel,
    source: LookupError,
    number: String,
    reason: String,
    search: String,
    decide: String,
    apply: String,
    read_level: String,
    read_neighbor: String,
    purpose: SendPurpose,
    cause: NetworkError,
    send: String,
)
    requires
        call_ensures(text::decimal_string, (level,), number),
        call_ensures(LookupError::message, (&source,), reason),
        call_ensures(
            NodeError::message,
            (&NodeError::Search(SearchError { level, source }),),
            search,
        ),
        call_ensures(NodeError::message, (&NodeError::DecideLink { level, source },), decide),
        call_ensures(NodeError::message, (&NodeError::ApplyLink { level, source },), apply),
        call_ensures(NodeError::message, (&NodeError::ReadMaxLevel(source),), read_level),
        call_ensures(NodeError::message, (&NodeError::ReadNeighbor(source),), read_neighbor),
        call_ensures(NodeError::message, (&NodeError::Send { purpose, cause },), send),
    ensures
        search@ == "failed to perform search by id "@ + ("error while searching by id in level "@
            + number@ + ": "@ + reason@),
        decide@ == "failed to decide link at level "@ + number@ + ": "@ + reason@,
        apply@ == "failed to apply link at level "@ + number@ + ": "@ + reason@,
        read_level@ == "failed to read local max level: "@ + reason@,
        read_neighbor@ == "failed to read local neighbor entry: "@ + reason@,
        send@.len() >= 2 + cause.reason@.len(),
        send@.skip(send@.len() - cause.reason@.len()) == cause.reason@,
{
    reveal_strlit(": ");
    assert(send@.skip(send@.len() - cause.reason@.len()) =~= cause.reason@);
}

/// A table's refusal of a level names the level, and any other reason is reported as it is.
pub proof fn law_table_refusals_name_the_level(
    level: LookupTableLevel,
    number: String,
    refused: String,
    reason: String,
    broken: String,
)
    requires
        call_ensures(text::decimal_string, (level,), number),
        call_ensures(
            LookupError::message,
            (&LookupError::LevelOutOfRange { level },),
            refused,
        ),
        call_ensures(LookupError::message, (&LookupError::Storage { reason },), broken),
    ensures
        refused@ == "position is larger than the max lookup table entry number: "@ + number@,
        broken@ == reason@,
{
}

} // verus!
