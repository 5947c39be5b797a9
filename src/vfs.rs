//! The filesystem capability interfaces and the per-connection protocol state
//! machine.
//!
//! A connection decides; the runtime around it acts. For each received message
//! `Connection::dispatch` returns the ordered effects to carry out on the
//! transport (replies to write, the resolved node to serve or close, the
//! child channel to drop) and whether the connection stays alive.
use vstd::prelude::*;
use crate::rio::{
    decode, decode_error, encode_reply, le_u32, lemma_reply_round_trip, opcode, reply_bytes,
    reply_fields, status_reply, ERR_INVALID_ARGS, ERR_NOT_SUPPORTED, FDIO_MAX_HANDLES,
    FDIO_PROTOCOL_REMOTE, MAX_PATH_BYTES, NO_ERROR, ERR_INTERNAL, O_PIPELINE, ZXRIO_HDR_SZ, ZXRIO_OPEN,
};

verus! {

/// The channel a reply is written on.
#[derive(Copy, Clone, Debug, PartialEq, Eq, Structural)]
pub enum ReplyTarget {
    /// The connection's own channel.
    Connection,
    /// The channel handed over in an open request, for the opened object.
    Child,
}

/// One thing for the runtime to do, in order.
#[derive(Clone, Debug)]
pub enum Effect {
    /// Write `bytes` on `target`, with the opened node's `handles` extra
    /// handles attached.
    Reply { target: ReplyTarget, bytes: Vec<u8>, handles: usize },
    /// Hand the child channel to the resolved node, which serves it with
    /// these access flags.
    Serve { flags: i32 },
    /// Close the resolved node.
    CloseNode,
    /// Drop the child channel, which closes it for the client.
    CloseChild,
}

/// What an `Effect` is, with its bytes as a sequence.
pub enum Step {
    Reply { target: ReplyTarget, bytes: Seq<u8>, handles: nat },
    Serve { flags: i32 },
    CloseNode,
    CloseChild,
}

impl View for Effect {
    type V = Step;

    open spec fn view(&self) -> Step {
        match self {
            Effect::Reply { target, bytes, handles } => Step::Reply {
                target: *target,
                bytes: bytes@,
                handles: *handles as nat,
            },
            Effect::Serve { flags } => Step::Serve { flags: *flags },
            Effect::CloseNode => Step::CloseNode,
            Effect::CloseChild => Step::CloseChild,
        }
    }
}

/// The steps that a sequence of effects stands for.
pub open spec fn steps(effects: Seq<Effect>) -> Seq<Step> {
    effects.map_values(|e: Effect| e@)
}

/// A reply with only a status on `target`.
pub open spec fn status_step(target: ReplyTarget, status: i32) -> Step {
    Step::Reply { target, bytes: reply_bytes(status, 0, Seq::empty()), handles: 0 }
}

/// What a successful path resolution tells about the opened object.
#[derive(Copy, Clone, Debug, PartialEq, Eq, Structural)]
pub struct Resolved {
    /// The object's protocol tag.
    pub proto: u32,
    /// How many handles besides the channel go back to the client.
    pub extra_handles: usize,
}

/// Why an open did not succeed.
#[derive(Copy, Clone, Debug, PartialEq, Eq, Structural)]
pub enum OpenError {
    /// The open asked for pipelining, and the opened object returns handles.
    InvalidInput,
    /// The node returns more extra handles than one reply carries.
    TooManyHandles,
    /// Resolution failed with this status, an error status.
    Status(i32),
}

/// Whether the open flags ask for pipelining.
pub open spec fn is_pipelined(flags: i32) -> bool {
    flags & O_PIPELINE != 0
}

/// The open flags handed on to the filesystem: the pipelining bit cleared.
pub open spec fn stripped(flags: i32) -> i32 {
    flags & !O_PIPELINE
}

/// The status that a failed resolution is reported with: the filesystem's
/// status, where it is an error status at all.
pub open spec fn failure_status(status: i32) -> i32 {
    if status == NO_ERROR {
        ERR_INTERNAL
    } else {
        status
    }
}

/// The steps of an open whose resolution came back as `res`. A failed
/// pipelined open writes no reply: the child channel is closed, which is how
/// the client learns of the failure. A node whose extra handles do not fit in
/// one reply cannot be opened.
pub open spec fn open_plan(pipeline: bool, flags: i32, res: Result<Resolved, i32>) -> Seq<Step> {
    match res {
        Ok(rv) => if pipeline && rv.extra_handles > 0 {
            seq![Step::CloseNode, Step::CloseChild]
        } else if !pipeline && rv.extra_handles > FDIO_MAX_HANDLES {
            seq![Step::CloseNode, status_step(ReplyTarget::Child, ERR_INVALID_ARGS), Step::CloseChild]
        } else if !pipeline {
            seq![
                Step::Reply {
                    target: ReplyTarget::Child,
                    bytes: reply_bytes(NO_ERROR, rv.proto, Seq::empty()),
                    handles: rv.extra_handles as nat,
                },
                Step::Serve { flags },
            ]
        } else {
            seq![Step::Serve { flags }]
        },
        Err(status) => if pipeline {
            seq![Step::CloseChild]
        } else {
            seq![status_step(ReplyTarget::Child, failure_status(status)), Step::CloseChild]
        },
    }
}

/// How an open whose resolution came back as `res` ends.
pub open spec fn open_result(pipeline: bool, res: Result<Resolved, i32>) -> Result<(), OpenError> {
    match res {
        Ok(rv) => if pipeline && rv.extra_handles > 0 {
            Err(OpenError::InvalidInput)
        } else if !pipeline && rv.extra_handles > FDIO_MAX_HANDLES {
            Err(OpenError::TooManyHandles)
        } else {
            Ok(())
        },
        Err(status) => Err(OpenError::Status(failure_status(status))),
    }
}

/// Whether a step, where it is a reply, is a well-formed envelope: success
/// with a nonzero protocol tag, or an error status with protocol tag 0 and no
/// handles.
pub open spec fn well_formed_reply(st: Step) -> bool {
    match st {
        Step::Reply { bytes, handles, .. } => match reply_fields(bytes) {
            Some((status, proto, extra)) => extra.len() == 0 && ((status == NO_ERROR && proto != 0)
                || (status != NO_ERROR && proto == 0 && handles == 0)),
            None => false,
        },
        _ => true,
    }
}

/// Whether every reply among the steps is well formed.
pub open spec fn replies_well_formed(plan: Seq<Step>) -> bool {
    forall|i: int| 0 <= i < plan.len() ==> well_formed_reply(#[trigger] plan[i])
}

/// A reply with only an error status is well formed.
pub proof fn lemma_status_step_well_formed(target: ReplyTarget, status: i32)
    requires
        status != NO_ERROR,
    ensures
        well_formed_reply(status_step(target, status)),
{
    lemma_reply_round_trip(status, 0, Seq::empty());
}

/// Every reply that an open writes is well formed, where the opened node's
/// protocol tag is nonzero.
pub proof fn lemma_open_replies_well_formed(pipeline: bool, flags: i32, res: Result<Resolved, i32>)
    requires
        res matches Ok(rv) ==> rv.proto != 0,
    ensures
        replies_well_formed(open_plan(pipeline, flags, res)),
{
    lemma_status_step_well_formed(ReplyTarget::Child, ERR_INVALID_ARGS);
    match res {
        Ok(rv) => lemma_reply_round_trip(NO_ERROR, rv.proto, Seq::empty()),
        Err(status) => lemma_status_step_well_formed(ReplyTarget::Child, failure_status(status)),
    }
}

/// A successful open that is not pipelined writes exactly one reply on the
/// child channel before the node is served, and that reply reports success
/// with the node's protocol tag. Such an open succeeds exactly where the
/// node's extra handles fit in one reply.
pub proof fn lemma_plain_open_replies_once(flags: i32, rv: Resolved)
    ensures
        open_result(false, Ok(rv)) is Ok <==> rv.extra_handles <= FDIO_MAX_HANDLES,
        open_result(false, Ok(rv)) is Ok ==> {
            &&& open_plan(false, flags, Ok(rv)).len() == 2
            &&& open_plan(false, flags, Ok(rv))[1] == (Step::Serve { flags })
            &&& open_plan(false, flags, Ok(rv))[0] matches Step::Reply { target, bytes, handles }
                && target == ReplyTarget::Child && reply_fields(bytes) == Some(
                (NO_ERROR, rv.proto, Seq::<u8>::empty()),
            )
        },
{
    lemma_reply_round_trip(NO_ERROR, rv.proto, Seq::empty());
}

/// A successful pipelined open of a node that returns no extra handles writes
/// nothing before the node is served.
pub proof fn lemma_pipelined_open_is_silent(flags: i32, rv: Resolved)
    requires
        rv.extra_handles == 0,
    ensures
        open_result(true, Ok(rv)) == Ok::<(), OpenError>(()),
        open_plan(true, flags, Ok(rv)) == seq![Step::Serve { flags }],
{
}

/// A pipelined open of a node that returns extra handles fails with an
/// invalid-input error; the node is closed exactly once and never served, and
/// nothing is written.
pub proof fn lemma_pipelined_open_with_handles_fails(flags: i32, rv: Resolved)
    requires
        rv.extra_handles > 0,
    ensures
        open_result(true, Ok(rv)) == Err::<(), OpenError>(OpenError::InvalidInput),
        open_plan(true, flags, Ok(rv)) == seq![Step::CloseNode, Step::CloseChild],
        open_plan(true, flags, Ok(rv)).filter(|st: Step| st is CloseNode).len() == 1,
        forall|i: int|
            0 <= i < open_plan(true, flags, Ok(rv)).len() ==> !(open_plan(
                true,
                flags,
                Ok(rv),
            )[i] is Serve) && !(open_plan(true, flags, Ok(rv))[i] is Reply),
{
    let p = open_plan(true, flags, Ok(rv));
    reveal_with_fuel(Seq::filter, 3);
    assert(p.drop_last() =~= seq![Step::CloseNode]);
    assert(p.drop_last().drop_last() =~= Seq::<Step>::empty());
}

/// Splits open flags into the pipelining request and the flags handed on.
pub fn split_open_flags(flags: i32) -> (r: (bool, i32))
    ensures
        r.0 == is_pipelined(flags),
        r.1 == stripped(flags),
{
    (flags & O_PIPELINE != 0, flags & !O_PIPELINE)
}

fn status_effect(target: ReplyTarget, status: i32) -> (r: Effect)
    ensures
        r@ == status_step(target, status),
{
    Effect::Reply { target, bytes: status_reply(status), handles: 0 }
}

/// Decides what an open does once resolution came back as `res`: which
/// replies go on the child channel, whether the resolved node is served or
/// closed, and how the open ends. `flags` are the flags handed on.
pub fn open_outcome(pipeline: bool, flags: i32, res: Result<Resolved, i32>) -> (r: (
    Vec<Effect>,
    Result<(), OpenError>,
))
    ensures
        steps(r.0@) == open_plan(pipeline, flags, res),
        r.1 == open_result(pipeline, res),
{
    let mut effects: Vec<Effect> = Vec::new();
    match res {
        Ok(rv) => {
            // protocols that return handles on open cannot be pipelined
            if pipeline && rv.extra_handles > 0 {
                effects.push(Effect::CloseNode);
                effects.push(Effect::CloseChild);
                assert(steps(effects@) =~= open_plan(pipeline, flags, res));
                return (effects, Err(OpenError::InvalidInput));
            }
            if !pipeline {
                let empty: [u8; 0] = [];
                match encode_reply(NO_ERROR, rv.proto, &empty, rv.extra_handles) {
                    Ok(bytes) => {
                        assert(empty@ =~= Seq::<u8>::empty());
                        effects.push(
                            Effect::Reply {
                                target: ReplyTarget::Child,
                                bytes,
                                handles: rv.extra_handles,
                            },
                        );
                    },
                    Err(_) => {
                        effects.push(Effect::CloseNode);
                        effects.push(status_effect(ReplyTarget::Child, ERR_INVALID_ARGS));
                        effects.push(Effect::CloseChild);
                        assert(steps(effects@) =~= open_plan(pipeline, flags, res));
                        return (effects, Err(OpenError::TooManyHandles));
                    },
                }
            }
            effects.push(Effect::Serve { flags });
            assert(steps(effects@) =~= open_plan(pipeline, flags, res));
            (effects, Ok(()))
        },
        Err(status) => {
            let status = if status == NO_ERROR {
                ERR_INTERNAL
            } else {
                status
            };
            if !pipeline {
                effects.push(status_effect(ReplyTarget::Child, status));
            }
            effects.push(Effect::CloseChild);
            assert(steps(effects@) =~= open_plan(pipeline, flags, res));
            (effects, Err(OpenError::Status(status)))
        },
    }
}

/// How a received message is to be handled, before any filesystem work.
#[derive(Clone, Debug)]
pub enum Route {
    /// It fails validation: refuse it on the connection's channel and end the
    /// connection.
    Invalid,
    /// Its operation is not implemented: say so on the connection's channel.
    Unsupported,
    /// An open whose path length is zero or over the limit: refuse it on the
    /// child channel.
    BadPath,
    /// An open to resolve.
    Open { path: Vec<u8>, flags: i32, mode: u32 },
}

/// The path length of a valid request.
pub open spec fn datalen_of(b: Seq<u8>) -> int {
    le_u32(b, 8)
}

/// Whether a valid request is an open.
pub open spec fn is_open(b: Seq<u8>) -> bool {
    opcode(le_u32(b, 4) as u32) == ZXRIO_OPEN
}

/// Whether a valid open carries an acceptable path length.
pub open spec fn path_len_ok(b: Seq<u8>) -> bool {
    1 <= datalen_of(b) <= MAX_PATH_BYTES
}

/// Decides how a message of `b` bytes that came with `n_handles` handles is
/// handled.
pub fn route(b: &[u8], n_handles: usize) -> (r: Route)
    ensures
        decode_error(b@, n_handles as nat) is Some <==> r is Invalid,
        decode_error(b@, n_handles as nat) is None ==> {
            &&& !is_open(b@) <==> r is Unsupported
            &&& is_open(b@) && !path_len_ok(b@) <==> r is BadPath
        },
        r matches Route::Open { path, flags, mode } ==> {
            &&& decode_error(b@, n_handles as nat) is None
            &&& is_open(b@)
            &&& path_len_ok(b@)
            &&& path@ == b@.subrange(ZXRIO_HDR_SZ as int, b@.len() as int)
            &&& flags == le_u32(b@, 12) as u32 as i32
            &&& mode == le_u32(b@, 16)
        },
{
    match decode(b, n_handles) {
        Err(_) => Route::Invalid,
        Ok(msg) => {
            if msg.op & 0x3FFF != ZXRIO_OPEN {
                Route::Unsupported
            } else if msg.datalen < 1 || msg.datalen > MAX_PATH_BYTES {
                Route::BadPath
            } else {
                Route::Open { path: msg.data, flags: msg.arg, mode: msg.arg2 }
            }
        },
    }
}

/// A single addressable object of a filesystem: a file, a directory, a mount
/// point or a device.
pub trait Vnode: Sized {
    /// Whether the node holds resources that closing it releases.
    spec fn holds_resources(&self) -> bool;

    /// Whether the node is an ordinary remote-I/O object: served over this
    /// protocol, with no handles besides the channel.
    spec fn is_remote(&self) -> bool;

    /// Releases what the node holds and reports how that went. A node that
    /// holds nothing closes with success, however often it is closed.
    fn close(&self) -> (r: i32)
        ensures
            !self.holds_resources() ==> r == NO_ERROR,
    {
        NO_ERROR
    }

    /// The protocol tag that an open of this node reports; never 0.
    fn protocol(&self) -> (r: u32)
        ensures
            r != 0,
            self.is_remote() ==> r == FDIO_PROTOCOL_REMOTE,
    {
        FDIO_PROTOCOL_REMOTE
    }

    /// How many handles besides the channel an open of this node returns.
    fn extra_handles(&self) -> (r: usize)
        ensures
            self.is_remote() ==> r == 0,
    {
        0
    }
}

/// A node that holds nothing and is served over the remote-I/O protocol.
#[derive(Copy, Clone, Debug, PartialEq, Eq, Structural)]
pub struct RemoteNode {}

impl Vnode for RemoteNode {
    open spec fn holds_resources(&self) -> bool {
        false
    }

    open spec fn is_remote(&self) -> bool {
        true
    }
}

/// Filesystem-wide state: resolves paths to nodes, across mounts and links.
/// It outlives every node it hands out.
pub trait Vfs {
    type Node: Vnode;

    /// Whether the filesystem resolves any path at all.
    spec fn resolves(&self) -> bool;

    /// Resolves `path` from `from`, with the open flags and mode; the result is
    /// the node and the part of the path left unresolved, or a status. A
    /// filesystem that resolves nothing refuses every path as not supported.
    fn open(&self, from: &Self::Node, path: &Vec<u8>, flags: i32, mode: u32) -> (r: Result<
        (Self::Node, Vec<u8>),
        i32,
    >)
        ensures
            !self.resolves() ==> r == Err::<(Self::Node, Vec<u8>), i32>(ERR_NOT_SUPPORTED),
    {
        Err(ERR_NOT_SUPPORTED)
    }
}

/// A filesystem with no paths: every open is refused as not supported.
#[derive(Copy, Clone, Debug, PartialEq, Eq, Structural)]
pub struct EmptyVfs {}

impl Vfs for EmptyVfs {
    type Node = RemoteNode;

    open spec fn resolves(&self) -> bool {
        false
    }
}

/// The open flags of a request.
pub open spec fn flags_of(b: Seq<u8>) -> i32 {
    le_u32(b, 12) as u32 as i32
}

/// Whether an open's answer `res` is what the filesystem `fs` may answer
/// with the node `node`: a filesystem that resolves nothing refuses, and a
/// resolution describes the node it returned.
pub open spec fn answer_fits<V: Vfs>(fs: V, res: Result<Resolved, i32>, node: Option<V::Node>) -> bool {
    &&& !fs.resolves() ==> res == Err::<Resolved, i32>(ERR_NOT_SUPPORTED)
    &&& res is Ok <==> node is Some
    &&& res matches Ok(rv) ==> {
        &&& rv.proto != 0
        &&& node->Some_0.is_remote() ==> rv == (Resolved { proto: FDIO_PROTOCOL_REMOTE, extra_handles: 0 })
    }
}

/// What an open comes to.
pub struct Opened<N> {
    /// What to do on the transport, in order.
    pub effects: Vec<Effect>,
    /// The node the path resolved to; the effects say whether to serve or
    /// close it.
    pub node: Option<N>,
    /// How the open ended.
    pub result: Result<(), OpenError>,
}

/// What handling one message comes to.
pub struct Dispatched<N> {
    /// What to do on the transport, in order.
    pub effects: Vec<Effect>,
    /// The node an open resolved to; the effects say whether to serve or
    /// close it.
    pub node: Option<N>,
    /// Whether the first handle of the message is the child channel of an
    /// open, which the effects on the child channel act on.
    pub child: bool,
    /// Whether the connection goes on receiving.
    pub alive: bool,
    /// How an open ended, where the message was an open that reached the
    /// filesystem.
    pub opened: Option<Result<(), OpenError>>,
}

/// One client connection to a node of a filesystem.
pub struct Connection<V: Vfs> {
    vfs: std::sync::Arc<V>,
    vn: V::Node,
}

impl<V: Vfs> Connection<V> {
    /// A connection that serves `vn` within `vfs`.
    pub fn new(vfs: std::sync::Arc<V>, vn: V::Node) -> (r: Connection<V>)
        ensures
            r.vfs() == vfs,
            r.node() == vn,
    {
        Connection { vfs, vn }
    }

    /// The filesystem the connection belongs to.
    pub closed spec fn vfs(&self) -> std::sync::Arc<V> {
        self.vfs
    }

    /// The node the connection serves.
    pub closed spec fn node(&self) -> V::Node {
        self.vn
    }

    /// Opens `path` from the connection's node with the request's open
    /// `flags` and `mode`: the filesystem resolves it with the pipelining bit
    /// cleared, and the answer decides the replies on the child channel and
    /// whether the resolved node is served or closed.
    pub fn open(&self, path: &Vec<u8>, flags: i32, mode: u32) -> (r: Opened<V::Node>)
        ensures
            replies_well_formed(steps(r.effects@)),
            exists|res: Result<Resolved, i32>|
                {
                    &&& answer_fits(*self.vfs(), res, r.node)
                    &&& steps(r.effects@) == open_plan(is_pipelined(flags), stripped(flags), res)
                    &&& r.result == open_result(is_pipelined(flags), res)
                },
    {
        let (pipeline, open_flags) = split_open_flags(flags);
        match self.vfs.open(&self.vn, path, open_flags, mode) {
            Ok((vn, _rest)) => {
                let res: Result<Resolved, i32> = Ok(
                    Resolved { proto: vn.protocol(), extra_handles: vn.extra_handles() },
                );
                let (effects, result) = open_outcome(pipeline, open_flags, res);
                proof {
                    lemma_open_replies_well_formed(pipeline, open_flags, res);
                }
                let node = Some(vn);
                assert(answer_fits(*self.vfs(), res, node));
                Opened { effects, node, result }
            },
            Err(status) => {
                let res: Result<Resolved, i32> = Err(status);
                let (effects, result) = open_outcome(pipeline, open_flags, res);
                proof {
                    lemma_open_replies_well_formed(pipeline, open_flags, res);
                }
                let node: Option<V::Node> = None;
                assert(answer_fits(*self.vfs(), res, node));
                Opened { effects, node, result }
            },
        }
    }

    /// Handles one received message of `b` bytes that came with `n_handles`
    /// handles; for an open, the first of them is the child channel.
    pub fn dispatch(&self, b: &[u8], n_handles: usize) -> (r: Dispatched<V::Node>)
        ensures
            replies_well_formed(steps(r.effects@)),
            r.child <==> decode_error(b@, n_handles as nat) is None && is_open(b@),
            decode_error(b@, n_handles as nat) is Some ==> {
                &&& steps(r.effects@) == seq![
                    status_step(ReplyTarget::Connection, ERR_INVALID_ARGS),
                ]
                &&& !r.alive
                &&& r.node is None
                &&& r.opened is None
            },
            decode_error(b@, n_handles as nat) is None && !is_open(b@) ==> {
                &&& steps(r.effects@) == seq![
                    status_step(ReplyTarget::Connection, ERR_NOT_SUPPORTED),
                ]
                &&& r.alive
                &&& r.node is None
                &&& r.opened is None
            },
            decode_error(b@, n_handles as nat) is None && is_open(b@) && !path_len_ok(b@) ==> {
                &&& steps(r.effects@) == seq![
                    status_step(ReplyTarget::Child, ERR_INVALID_ARGS),
                    Step::CloseChild,
                ]
                &&& r.alive
                &&& r.node is None
                &&& r.opened is None
            },
            decode_error(b@, n_handles as nat) is None && is_open(b@) && path_len_ok(b@) ==> {
                &&& r.alive
                &&& exists|res: Result<Resolved, i32>|
                    {
                        &&& answer_fits(*self.vfs(), res, r.node)
                        &&& steps(r.effects@) == open_plan(
                            is_pipelined(flags_of(b@)),
                            stripped(flags_of(b@)),
                            res,
                        )
                        &&& r.opened == Some(open_result(is_pipelined(flags_of(b@)), res))
                    }
            },
    {
        proof {
            lemma_status_step_well_formed(ReplyTarget::Connection, ERR_INVALID_ARGS);
            lemma_status_step_well_formed(ReplyTarget::Connection, ERR_NOT_SUPPORTED);
            lemma_status_step_well_formed(ReplyTarget::Child, ERR_INVALID_ARGS);
        }
        match route(b, n_handles) {
            Route::Invalid => {
                let effects = vec![status_effect(ReplyTarget::Connection, ERR_INVALID_ARGS)];
                assert(steps(effects@) =~= seq![
                    status_step(ReplyTarget::Connection, ERR_INVALID_ARGS),
                ]);
                Dispatched { effects, node: None, child: false, alive: false, opened: None }
            },
            Route::Unsupported => {
                let effects = vec![status_effect(ReplyTarget::Connection, ERR_NOT_SUPPORTED)];
                assert(steps(effects@) =~= seq![
                    status_step(ReplyTarget::Connection, ERR_NOT_SUPPORTED),
                ]);
                Dispatched { effects, node: None, child: false, alive: true, opened: None }
            },
            Route::BadPath => {
                let effects = vec![
                    status_effect(ReplyTarget::Child, ERR_INVALID_ARGS),
                    Effect::CloseChild,
                ];
                assert(steps(effects@) =~= seq![
                    status_step(ReplyTarget::Child, ERR_INVALID_ARGS),
                    Step::CloseChild,
                ]);
                Dispatched { effects, node: None, child: true, alive: true, opened: None }
            },
            Route::Open { path, flags, mode } => {
                let opened = self.open(&path, flags, mode);
                Dispatched {
                    effects: opened.effects,
                    node: opened.node,
                    child: true,
                    alive: true,
                    opened: Some(opened.result),
                }
            },
        }
    }
}

} // verus!
