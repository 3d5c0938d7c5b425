//! The control API: what `open`, `close` and `list` decide.
//!
//! An operator opens a TCP port for a tunnel, closes it again, or asks which
//! ports are open. Binding the socket, running the accept loop and speaking
//! HTTP are the caller's part. Opening takes two steps with the bind between
//! them: `begin_open` checks the request against the tunnel registry, and
//! `finish_open` records the port once the socket is bound.

use crate::frame::{carries, lemma_stream_id_bytes, stream_id_bytes};
use crate::ports::{lists, BoundPort, PortEntry, PortRegistry};
use crate::registry::TunnelRegistry;
use crate::text::{
    ascii_chars, ascii_string, decimal_digits, is_ascii_bytes, lemma_ascii_is_utf8,
    lemma_decimal_digits, lemma_encode_utf8_concat, push_decimal,
};
use vstd::prelude::*;
use vstd::string::StringExecFns;
use vstd::utf8::{encode_utf8, encode_utf8_valid_utf8, valid_utf8};

verus! {

/// Status of a request that was carried out.
pub const STATUS_OK: u16 = 200;

/// Status of a `close` for a port that is not open.
pub const STATUS_NOT_FOUND: u16 = 404;

/// Status of an `open` that could not be carried out.
pub const STATUS_INTERNAL_SERVER_ERROR: u16 = 500;

/// Body of the reply to an `open` for a UID without tunnel.
pub const NO_CONNECTION: &'static str = "No QUIC connection exists for the specified UID.";

/// Body of the reply to an `open` that was carried out.
pub const LISTENER_CREATED: &'static str = "TcpListener created successfully!";

/// Start of the body of the reply to an `open` whose bind failed.
pub const LISTENER_FAILED: &'static str = "Failed to create TcpListener: ";

/// Body of an `open` request.
#[derive(Debug, Clone, PartialEq, Eq)]
pub struct OpenRequest {
    pub uid: String,
    pub port: u16,
    pub connect_address: String,
    pub connect_port: u16,
}

/// Body of a `close` request.
#[derive(Debug, Clone, Copy, PartialEq, Eq, Structural)]
pub struct CloseRequest {
    pub port: u16,
}

/// A reply: HTTP status and plain-text body.
#[derive(Debug, Clone, PartialEq, Eq)]
pub struct Response {
    pub status: u16,
    pub body: String,
}

/// What binding the TCP socket came to.
pub enum BindOutcome<H> {
    /// The socket is bound, and this is the handle of its accept loop.
    Bound(H),
    /// The bind failed, with this description of the error.
    Failed(String),
}

/// An `open` whose UID has a tunnel and whose socket is yet to be bound.
pub struct PendingOpen {
    request: OpenRequest,
}

// ---------------------------------------------------------------------------
// Model
// ---------------------------------------------------------------------------
/// The number of a port, in decimal.
pub open spec fn port_text(port: u16) -> Seq<char> {
    ascii_chars(decimal_digits(port as nat))
}

/// The edge address that every stream of a port announces: `host:port`.
pub open spec fn edge_text(connect_address: Seq<char>, connect_port: u16) -> Seq<char> {
    connect_address + ":"@ + port_text(connect_port)
}

/// Body of the reply to a `close` that was carried out.
pub open spec fn canceled_text(port: u16) -> Seq<char> {
    "Task "@ + port_text(port) + " canceled"@
}

/// Body of the reply to a `close` for a port that is not open.
pub open spec fn not_found_text(port: u16) -> Seq<char> {
    "Task "@ + port_text(port) + " not found"@
}

/// The entry that an `open` request makes in the port registry.
pub open spec fn entry_for<H>(request: OpenRequest, task: H) -> BoundPort<H> {
    BoundPort {
        uid: request.uid,
        connect_address: request.connect_address,
        connect_port: request.connect_port,
        task,
    }
}

/// The port registry after an `open` that was carried out.
pub open spec fn after_open<H>(ports: Map<u16, BoundPort<H>>, request: OpenRequest, task: H) -> Map<
    u16,
    BoundPort<H>,
> {
    ports.insert(request.port, entry_for(request, task))
}

/// The port registry after a `close`.
pub open spec fn after_close<H>(ports: Map<u16, BoundPort<H>>, port: u16) -> Map<u16, BoundPort<H>> {
    ports.remove(port)
}

/// Status of the reply to an `open`, given whether the UID has a tunnel and
/// whether the bind succeeded.
pub open spec fn open_status(uid_registered: bool, bound: bool) -> u16 {
    if uid_registered && bound {
        STATUS_OK
    } else {
        STATUS_INTERNAL_SERVER_ERROR
    }
}

/// Status of the reply to a `close`.
pub open spec fn close_status<H>(ports: Map<u16, BoundPort<H>>, port: u16) -> u16 {
    if ports.contains_key(port) {
        STATUS_OK
    } else {
        STATUS_NOT_FOUND
    }
}

// ---------------------------------------------------------------------------
// Text
// ---------------------------------------------------------------------------
/// Writes a port number in decimal.
pub fn port_string(port: u16) -> (text: String)
    ensures
        text@ == port_text(port),
{
    let mut digits: Vec<u8> = Vec::new();
    push_decimal(&mut digits, port as u64);
    proof {
        lemma_decimal_digits(port as nat);
        assert(digits@ =~= decimal_digits(port as nat));
        assert(is_ascii_bytes(digits@));
    }
    ascii_string(digits)
}

/// Writes the edge address `host:port` that the streams of a port announce.
pub fn edge_address(connect_address: &str, connect_port: u16) -> (edge: String)
    ensures
        edge@ == edge_text(connect_address@, connect_port),
{
    let mut edge = String::from_str(connect_address);
    edge.append(":");
    let port = port_string(connect_port);
    edge.append(port.as_str());
    edge
}

// ---------------------------------------------------------------------------
// open
// ---------------------------------------------------------------------------
impl PendingOpen {
    /// The request that is pending.
    pub closed spec fn request(&self) -> OpenRequest {
        self.request
    }

    /// The port to bind, on every local address.
    pub fn port(&self) -> (port: u16)
        ensures
            port == self.request().port,
    {
        self.request.port
    }

    /// The UID whose tunnel the streams of this port use.
    pub fn uid(&self) -> (uid: &String)
        ensures
            *uid == self.request().uid,
    {
        &self.request.uid
    }

    /// The edge address that the streams of this port announce.
    pub fn edge_target(&self) -> (edge: String)
        ensures
            edge@ == edge_text(self.request().connect_address@, self.request().connect_port),
    {
        edge_address(self.request.connect_address.as_str(), self.request.connect_port)
    }
}

/// First step of `open`: refuses the request if its UID has no tunnel, and
/// else asks for the port to be bound.
pub fn begin_open<C>(tunnels: &TunnelRegistry<C>, request: OpenRequest) -> (res: Result<
    PendingOpen,
    Response,
>)
    ensures
        match res {
            Ok(pending) => tunnels@.contains_key(request.uid@) && pending.request() == request,
            Err(response) => {
                &&& !tunnels@.contains_key(request.uid@)
                &&& response.status == open_status(false, false)
                &&& response.body@ == NO_CONNECTION@
            },
        },
{
    if !tunnels.contains(request.uid.as_str()) {
        return Err(
            Response {
                status: STATUS_INTERNAL_SERVER_ERROR,
                body: String::from_str(NO_CONNECTION),
            },
        );
    }
    Ok(PendingOpen { request })
}

/// Second step of `open`: records the port if the socket was bound, and
/// writes the reply. Returns the reply and the entry that the port had
/// before, if it had one; that entry has left the registry, so the caller
/// aborts its accept loop.
pub fn finish_open<H>(ports: &mut PortRegistry<H>, pending: PendingOpen, outcome: BindOutcome<H>) -> (res:
    (Response, Option<BoundPort<H>>))
    ensures
        match outcome {
            BindOutcome::Bound(task) => {
                &&& res.0.status == open_status(true, true)
                &&& res.0.body@ == LISTENER_CREATED@
                &&& final(ports)@ == after_open(old(ports)@, pending.request(), task)
                &&& res.1 == if old(ports)@.contains_key(pending.request().port) {
                    Some(old(ports)@[pending.request().port])
                } else {
                    None
                }
            },
            BindOutcome::Failed(reason) => {
                &&& res.0.status == open_status(true, false)
                &&& res.0.body@ == LISTENER_FAILED@ + reason@
                &&& final(ports)@ == old(ports)@
                &&& res.1 is None
            },
        },
{
    match outcome {
        BindOutcome::Bound(task) => {
            let request = pending.request;
            let bound = BoundPort {
                uid: request.uid,
                connect_address: request.connect_address,
                connect_port: request.connect_port,
                task,
            };
            let displaced = ports.insert(request.port, bound);
            (Response { status: STATUS_OK, body: String::from_str(LISTENER_CREATED) }, displaced)
        },
        BindOutcome::Failed(reason) => {
            let mut body = String::from_str(LISTENER_FAILED);
            body.append(reason.as_str());
            (Response { status: STATUS_INTERNAL_SERVER_ERROR, body }, None)
        },
    }
}

// ---------------------------------------------------------------------------
// close
// ---------------------------------------------------------------------------
/// Takes a port out of the registry and writes the reply. Returns the reply
/// and the handle of the accept loop to abort, if the port was open.
pub fn close<H>(ports: &mut PortRegistry<H>, request: CloseRequest) -> (res: (Response, Option<H>))
    ensures
        res.0.status == close_status(old(ports)@, request.port),
        final(ports)@ == after_close(old(ports)@, request.port),
        old(ports)@.contains_key(request.port) ==> {
            &&& res.0.body@ == canceled_text(request.port)
            &&& res.1 == Some(old(ports)@[request.port].task)
        },
        !old(ports)@.contains_key(request.port) ==> {
            &&& res.0.body@ == not_found_text(request.port)
            &&& res.1 is None
            &&& final(ports)@ == old(ports)@
        },
{
    let mut body = String::from_str("Task ");
    let port = port_string(request.port);
    body.append(port.as_str());
    match ports.remove(request.port) {
        Some(bound) => {
            body.append(" canceled");
            (Response { status: STATUS_OK, body }, Some(bound.task))
        },
        None => {
            body.append(" not found");
            assert(ports@ =~= old(ports)@);
            (Response { status: STATUS_NOT_FOUND, body }, None)
        },
    }
}

// ---------------------------------------------------------------------------
// list
// ---------------------------------------------------------------------------
/// Lists the open ports: each exactly once, with the tunnel and the edge
/// server it was opened for, in no particular order.
pub fn list<H>(ports: &PortRegistry<H>) -> (entries: Vec<PortEntry>)
    ensures
        lists(entries@, ports@),
        entries@.len() == ports@.dom().len(),
{
    ports.list()
}

// ---------------------------------------------------------------------------
// Laws
// ---------------------------------------------------------------------------
/// The edge address of a port ends in a digit. So the handshake frame of a
/// stream of that port is refused only for its length: a frame carries the
/// stream's id and the port's edge address exactly if the payload fits.
pub proof fn lemma_edge_address_is_carried_if_it_fits(
    connect_address: Seq<char>,
    connect_port: u16,
    stable_id: nat,
    index: nat,
    size: nat,
)
    ensures
        ({
            let edge = encode_utf8(edge_text(connect_address, connect_port));
            let id = stream_id_bytes(stable_id, index);
            &&& valid_utf8(edge)
            &&& edge.len() > 0
            &&& 48 <= edge.last() <= 57
            &&& carries(id, edge, size) <==> id.len() + 1 + edge.len() <= size
        }),
{
    let digits = decimal_digits(connect_port as nat);
    let head = connect_address + ":"@;
    lemma_decimal_digits(connect_port as nat);
    lemma_ascii_is_utf8(digits);
    lemma_encode_utf8_concat(head, port_text(connect_port));
    encode_utf8_valid_utf8(edge_text(connect_address, connect_port));
    let edge = encode_utf8(edge_text(connect_address, connect_port));
    assert(edge == encode_utf8(head) + digits);
    assert(edge.last() == digits.last());
    lemma_stream_id_bytes(stable_id, index);
}

/// Port lifecycle. A `close` of an open port is answered with 200 and leaves
/// the port free; an `open` of that port for a UID with a tunnel, whose bind
/// succeeds, is then answered with 200 and leaves the port open as asked.
pub proof fn lemma_port_lifecycle<H>(ports: Map<u16, BoundPort<H>>, request: OpenRequest, task: H)
    requires
        ports.contains_key(request.port),
    ensures
        close_status(ports, request.port) == STATUS_OK,
        !after_close(ports, request.port).contains_key(request.port),
        open_status(true, true) == STATUS_OK,
        after_open(after_close(ports, request.port), request, task).contains_key(request.port),
        after_open(after_close(ports, request.port), request, task)[request.port] == entry_for(
            request,
            task,
        ),
{
}

/// Open, close, open again comes to the same as a single open: all three
/// requests are answered with 200, and the registry ends as after the last
/// open alone.
pub proof fn lemma_open_close_open<H>(
    ports: Map<u16, BoundPort<H>>,
    request: OpenRequest,
    first: H,
    second: H,
)
    ensures
        close_status(after_open(ports, request, first), request.port) == STATUS_OK,
        after_open(
            after_close(after_open(ports, request, first), request.port),
            request,
            second,
        ) == after_open(ports, request, second),
{
    assert(after_open(
        after_close(after_open(ports, request, first), request.port),
        request,
        second,
    ) =~= after_open(ports, request, second));
}

/// A listing shows a port exactly if the port is open: no port is left in it
/// after its `close`, and every other port stays.
pub proof fn lemma_list_reflects_bound_ports<H>(
    ports: Map<u16, BoundPort<H>>,
    entries: Seq<PortEntry>,
    port: u16,
)
    requires
        lists(entries, ports),
    ensures
        ports.contains_key(port) <==> exists|i: int|
            0 <= i < entries.len() && (#[trigger] entries[i]).port == port,
{
    if ports.contains_key(port) {
    }
}

/// After a `close`, no listing shows the closed port, and every listing
/// shows each port that is still open.
pub proof fn lemma_list_after_close<H>(
    ports: Map<u16, BoundPort<H>>,
    closed: u16,
    entries: Seq<PortEntry>,
)
    requires
        lists(entries, after_close(ports, closed)),
    ensures
        forall|i: int| 0 <= i < entries.len() ==> (#[trigger] entries[i]).port != closed,
        forall|port: u16|
            ports.contains_key(port) && port != closed ==> exists|i: int|
                0 <= i < entries.len() && (#[trigger] entries[i]).port == port,
{
    assert forall|port: u16| ports.contains_key(port) && port != closed implies exists|i: int|
        0 <= i < entries.len() && (#[trigger] entries[i]).port == port by {
        assert(after_close(ports, closed).contains_key(port));
    }
}

} // verus!
