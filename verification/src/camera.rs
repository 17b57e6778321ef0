//! The camera: a device control handle, a payload stream handle and a
//! `GenApi` context, driven in the order the USB3 Vision and `GenICam`
//! specifications ask.

use vstd::prelude::*;
use std::sync::mpsc::Receiver;
use crate::errors::{CameleonError, ControlError, StreamError};

verus! {

#[verifier::external_type_specification]
#[verifier::external_body]
#[verifier::reject_recursive_types(T)]
pub struct ExReceiver<T>(Receiver<T>);

/// A call made on a device control handle, with what it returned.
pub ghost enum ControlCall {
    Open(Result<(), ControlError>),
    /// The address read from, the bytes the buffer holds afterwards, and the
    /// result.
    Read(u64, Seq<u8>, Result<(), ControlError>),
    Write(u64, Seq<u8>, Result<(), ControlError>),
    Genapi(Result<String, ControlError>),
    EnableStreaming(Result<(), ControlError>),
    DisableStreaming(Result<(), ControlError>),
}


/// A call made on a stream handle, with what it returned.
pub ghost enum StreamCall {
    Open(Result<(), StreamError>),
}

/// The interface a node of a `GenApi` context offers.
#[derive(Debug, Clone, Copy, PartialEq, Eq, Structural)]
pub enum NodeInterface {
    /// An integer node, whose value can be set.
    Integer,
    /// A command node, which can be executed.
    Command,
    /// Any other interface.
    Other,
}

/// A call made on a `GenApi` context, with its arguments and what it
/// returned.
pub ghost enum ContextCall {
    ClearCache,
    /// The node's name and the interface it offers; `None` where the
    /// context has no such node.
    Lookup(Seq<char>, Option<NodeInterface>),
    /// The node's name, the value, and the result.
    SetInteger(Seq<char>, i64, Result<(), CameleonError>),
    /// The node's name and the result.
    ExecuteCommand(Seq<char>, Result<(), CameleonError>),
}

/// `b` holds the calls of `a`, followed by any others.
pub open spec fn extends<T>(a: Seq<T>, b: Seq<T>) -> bool {
    &&& a.len() <= b.len()
    &&& forall|i: int| 0 <= i < a.len() ==> #[trigger] b[i] == a[i]
}

/// Operations on the device's memory.
pub trait DeviceControl {
    /// The calls made on the handle so far, in order. An implementation that
    /// is verified defines it; each method below appends its call.
    open spec fn control_calls(&self) -> Seq<ControlCall> {
        Seq::empty()
    }

    /// Opens the handle.
    fn open(&mut self) -> (r: Result<(), ControlError>)
        ensures
            final(self).control_calls() == old(self).control_calls().push(ControlCall::Open(r)),
    ;

    /// Returns `true` if the device is already opened.
    fn is_opened(&self) -> bool;

    /// Reads `buf.len()` bytes from the device's memory at `address`.
    fn read(&mut self, address: u64, buf: &mut [u8]) -> (r: Result<(), ControlError>)
        ensures
            final(buf)@.len() == old(buf)@.len(),
            final(self).control_calls() == old(self).control_calls().push(
                ControlCall::Read(address, final(buf)@, r),
            ),
    ;

    /// Writes data to the device's memory.
    fn write(&mut self, address: u64, data: &[u8]) -> (r: Result<(), ControlError>)
        ensures
            final(self).control_calls() == old(self).control_calls().push(
                ControlCall::Write(address, data@, r),
            ),
    ;

    /// Returns the `GenICam` XML description.
    fn genapi(&mut self) -> (r: Result<String, ControlError>)
        ensures
            final(self).control_calls() == old(self).control_calls().push(ControlCall::Genapi(r)),
    ;

    /// Enables streaming.
    fn enable_streaming(&mut self) -> (r: Result<(), ControlError>)
        ensures
            final(self).control_calls() == old(self).control_calls().push(
                ControlCall::EnableStreaming(r),
            ),
    ;

    /// Disables streaming.
    fn disable_streaming(&mut self) -> (r: Result<(), ControlError>)
        ensures
            final(self).control_calls() == old(self).control_calls().push(
                ControlCall::DisableStreaming(r),
            ),
    ;
}

/// Streaming capability.
pub trait StreamInterface {
    /// A stream of payloads.
    type Stream;

    /// A producer of payloads, one at a time on demand.
    type Generator;

    /// The calls made on the handle so far, in order. An implementation that
    /// is verified defines it; `open` appends its call.
    open spec fn stream_calls(&self) -> Seq<StreamCall> {
        Seq::empty()
    }

    /// What `start_streaming` may return when it is called with the control
    /// handle `ctrl` and the receiver `payload_rx`. An implementation that is
    /// verified defines it; by default it says nothing.
    open spec fn start_gives<C>(&self, ctrl: C, payload_rx: Receiver<Vec<u8>>, r: Result<Self::Stream, StreamError>) -> bool {
        true
    }

    /// What `start_generator` may return when it is called with the control
    /// handle `ctrl` and the receiver `payload_rx`. An implementation that is
    /// verified defines it; by default it says nothing.
    open spec fn generator_gives<C>(&self, ctrl: C, payload_rx: Receiver<Vec<u8>>, r: Result<Self::Generator, StreamError>) -> bool {
        true
    }

    /// Opens the handle.
    fn open(&mut self) -> (r: Result<(), StreamError>)
        ensures
            final(self).stream_calls() == old(self).stream_calls().push(StreamCall::Open(r)),
    ;

    /// Starts streaming; the device only gets further calls.
    fn start_streaming<C: DeviceControl>(&self, ctrl: &mut C, payload_rx: Receiver<Vec<u8>>) -> (r: Result<Self::Stream, StreamError>)
        ensures
            extends(old(ctrl).control_calls(), final(ctrl).control_calls()),
            self.start_gives(*old(ctrl), payload_rx, r),
    ;

    /// Starts a generator: the same as a stream, fetched one payload at a
    /// time.
    fn start_generator<C: DeviceControl>(&self, ctrl: &mut C, payload_rx: Receiver<Vec<u8>>) -> (r: Result<Self::Generator, StreamError>)
        ensures
            extends(old(ctrl).control_calls(), final(ctrl).control_calls()),
            self.generator_gives(*old(ctrl), payload_rx, r),
    ;
}

/// A `GenApi` context: the parameters of the camera.
pub trait GenApiCtxt {
    /// The calls made on the context so far, in order. An implementation
    /// that is verified defines it; each method below appends its call.
    open spec fn context_calls(&self) -> Seq<ContextCall> {
        Seq::empty()
    }

    /// Drops cached parameter values.
    fn clear_cache(&mut self)
        ensures
            final(self).context_calls() == old(self).context_calls().push(ContextCall::ClearCache),
    ;

    /// Looks the node `name` up: the interface it offers, `None` where the
    /// context has no such node.
    fn node_interface(&mut self, name: &str) -> (r: Option<NodeInterface>)
        ensures
            final(self).context_calls() == old(self).context_calls().push(ContextCall::Lookup(name@, r)),
    ;

    /// Sets the integer node `name` to `value`; the device only gets further
    /// calls.
    fn set_integer<C: DeviceControl>(&mut self, ctrl: &mut C, name: &str, value: i64) -> (r: Result<(), CameleonError>)
        ensures
            final(self).context_calls() == old(self).context_calls().push(
                ContextCall::SetInteger(name@, value, r),
            ),
            extends(old(ctrl).control_calls(), final(ctrl).control_calls()),
    ;

    /// Executes the command node `name`; the device only gets further calls.
    fn execute_command<C: DeviceControl>(&mut self, ctrl: &mut C, name: &str) -> (r: Result<(), CameleonError>)
        ensures
            final(self).context_calls() == old(self).context_calls().push(
                ContextCall::ExecuteCommand(name@, r),
            ),
            extends(old(ctrl).control_calls(), final(ctrl).control_calls()),
    ;
}

/// The calls made on a camera's context, if it has one.
pub open spec fn ctxt_calls<Ctxt: GenApiCtxt>(c: Option<Ctxt>) -> Option<Seq<ContextCall>> {
    match c {
        Some(x) => Some(x.context_calls()),
        None => None,
    }
}

/// A stream handle's result, with its error taken into the camera's.
pub open spec fn lift_stream_result<T>(res: Result<T, StreamError>) -> Result<T, CameleonError> {
    match res {
        Ok(s) => Ok(s),
        Err(e) => Err(CameleonError::StreamError(e)),
    }
}

/// The text of the `InvalidGenApiXml` error for the node `name`, which a
/// step needs with the interface `expected`, where the lookup found
/// `found`; `None` where the node is there with that interface.
pub open spec fn node_error_text(name: Seq<char>, found: Option<NodeInterface>, expected: NodeInterface) -> Option<Seq<char>> {
    match found {
        None => Some("missing "@ + name),
        Some(k) => if k == expected {
            None
        } else {
            Some(name + " has invalid interface"@)
        },
    }
}

/// How a run of steps on the camera ended.
pub ghost enum Outcome {
    /// Every step succeeded.
    Done,
    /// A step failed with this error.
    Failed(CameleonError),
    /// A node was missing or offered another interface: the error is
    /// `InvalidGenApiXml` with this text.
    BadNode(Seq<char>),
}

/// `e` is the error of the run that ended with `o`.
pub open spec fn fails_as(o: Outcome, e: CameleonError) -> bool {
    match o {
        Outcome::Done => false,
        Outcome::Failed(e2) => e == e2,
        Outcome::BadNode(m) => e matches CameleonError::InvalidGenApiXml(s) && s@ == m,
    }
}

/// `r` is what a run that ended with `o` returns.
pub open spec fn ends_as(o: Outcome, r: Result<(), CameleonError>) -> bool {
    match r {
        Ok(_) => o is Done,
        Err(e) => fails_as(o, e),
    }
}

/// The outcome of a call that returned `res`.
pub open spec fn result_outcome(res: Result<(), CameleonError>) -> Outcome {
    match res {
        Ok(_) => Outcome::Done,
        Err(e) => Outcome::Failed(e),
    }
}

/// A step on a node of the context.
pub ghost enum NodeStep {
    /// Set the integer node with this name to the value.
    SetInteger(Seq<char>, i64),
    /// Execute the command node with this name.
    Execute(Seq<char>),
}

/// What the step did whose calls start at position `i` of the context's
/// calls: the node looked up, then, where it is there with the interface the
/// step needs, the step's own call. The outcome and the number of calls;
/// `None` where the calls there do not have that shape.
pub open spec fn step_at(step: NodeStep, calls: Seq<ContextCall>, i: int) -> Option<(Outcome, int)> {
    let (name, kind) = match step {
        NodeStep::SetInteger(n, _) => (n, NodeInterface::Integer),
        NodeStep::Execute(n) => (n, NodeInterface::Command),
    };
    if !(0 <= i < calls.len()) {
        None
    } else {
        match calls[i] {
            ContextCall::Lookup(n, found) => if n != name {
                None
            } else {
                match node_error_text(name, found, kind) {
                    Some(m) => Some((Outcome::BadNode(m), 1int)),
                    None => if i + 1 >= calls.len() {
                        None
                    } else {
                        match (step, calls[i + 1]) {
                            (NodeStep::SetInteger(_, v), ContextCall::SetInteger(n2, v2, res)) => if n2 == name && v2
                                == v {
                                Some((result_outcome(res), 2int))
                            } else {
                                None
                            },
                            (NodeStep::Execute(_), ContextCall::ExecuteCommand(n2, res)) => if n2 == name {
                                Some((result_outcome(res), 2int))
                            } else {
                                None
                            },
                            _ => None,
                        }
                    },
                }
            },
            _ => None,
        }
    }
}

/// What the two steps did whose calls start at position `start` and end the
/// context's calls, the second only once the first succeeded.
pub open spec fn two_steps(first: NodeStep, second: NodeStep, calls: Seq<ContextCall>, start: int) -> Option<Outcome> {
    match step_at(first, calls, start) {
        None => None,
        Some((o1, k1)) => if o1 !is Done {
            if calls.len() == start + k1 {
                Some(o1)
            } else {
                None
            }
        } else {
            match step_at(second, calls, start + k1) {
                None => None,
                Some((o2, k2)) => if calls.len() == start + k1 + k2 {
                    Some(o2)
                } else {
                    None
                },
            }
        },
    }
}

/// What starting the acquisition did, read from the calls made: streaming
/// enabled on the device, then, with a context, `TLParamsLocked` set to 1
/// and `AcquisitionStart` executed, each node looked up first and each step
/// only after the one before it succeeded. `None` where the calls do not
/// have that shape.
pub open spec fn begin_record(
    oc: Seq<ControlCall>,
    fc: Seq<ControlCall>,
    ox: Option<Seq<ContextCall>>,
    fx: Option<Seq<ContextCall>>,
) -> Option<Outcome> {
    if !(extends(oc, fc) && fc.len() > oc.len()) {
        None
    } else {
        match fc[oc.len() as int] {
            ControlCall::EnableStreaming(Err(e)) => if fc.len() == oc.len() + 1 && fx == ox {
                Some(Outcome::Failed(CameleonError::ControlError(e)))
            } else {
                None
            },
            ControlCall::EnableStreaming(Ok(_)) => match (ox, fx) {
                (None, None) => if fc.len() == oc.len() + 1 {
                    Some(Outcome::Failed(CameleonError::GenApiContextMissing))
                } else {
                    None
                },
                (Some(a), Some(b)) => if extends(a, b) {
                    two_steps(
                        NodeStep::SetInteger("TLParamsLocked"@, 1),
                        NodeStep::Execute("AcquisitionStart"@),
                        b,
                        a.len() as int,
                    )
                } else {
                    None
                },
                _ => None,
            },
            _ => None,
        }
    }
}

/// What stopping the acquisition did, read from the calls made:
/// `AcquisitionStop` executed, `TLParamsLocked` set to 0, each node looked
/// up first, then streaming disabled on the device, each step only after the
/// one before it succeeded. `None` where the calls do not have that shape.
pub open spec fn stop_record(
    ox: Seq<ContextCall>,
    fx: Seq<ContextCall>,
    oc: Seq<ControlCall>,
    fc: Seq<ControlCall>,
) -> Option<Outcome> {
    if !(extends(oc, fc) && extends(ox, fx)) {
        None
    } else {
        match two_steps(
            NodeStep::Execute("AcquisitionStop"@),
            NodeStep::SetInteger("TLParamsLocked"@, 0),
            fx,
            ox.len() as int,
        ) {
            Some(Outcome::Done) => if fc.len() > oc.len() {
                match fc.last() {
                    ControlCall::DisableStreaming(Ok(_)) => Some(Outcome::Done),
                    ControlCall::DisableStreaming(Err(e)) => Some(Outcome::Failed(CameleonError::ControlError(e))),
                    _ => None,
                }
            } else {
                None
            },
            other => other,
        }
    }
}

/// Checks what the lookup of the node `name` found against the interface a
/// step needs.
fn check_node(name: &str, found: Option<NodeInterface>, expected: NodeInterface) -> (r: Result<(), CameleonError>)
    ensures
        match node_error_text(name@, found, expected) {
            None => r is Ok,
            Some(m) => r matches Err(CameleonError::InvalidGenApiXml(s)) && s@ == m,
        },
{
    match found {
        None => Err(CameleonError::InvalidGenApiXml("missing ".to_string().concat(name))),
        Some(k) => if k == expected {
            Ok(())
        } else {
            Err(CameleonError::InvalidGenApiXml(name.to_string().concat(" has invalid interface")))
        },
    }
}

/// Sets the integer node `name` to `value`, once the context shows it has
/// such a node.
fn set_integer_node<C: DeviceControl, X: GenApiCtxt>(ctxt: &mut X, ctrl: &mut C, name: &str, value: i64) -> (r: Result<(), CameleonError>)
    ensures
        extends(old(ctxt).context_calls(), final(ctxt).context_calls()),
        extends(old(ctrl).control_calls(), final(ctrl).control_calls()),
        step_at(
            NodeStep::SetInteger(name@, value),
            final(ctxt).context_calls(),
            old(ctxt).context_calls().len() as int,
        ) matches Some((o, k)) && final(ctxt).context_calls().len() == old(ctxt).context_calls().len() + k
            && ends_as(o, r),
{
    let found = ctxt.node_interface(name);
    match check_node(name, found, NodeInterface::Integer) {
        Err(e) => Err(e),
        Ok(()) => ctxt.set_integer(ctrl, name, value),
    }
}

/// Executes the command node `name`, once the context shows it has such a
/// node.
fn execute_node<C: DeviceControl, X: GenApiCtxt>(ctxt: &mut X, ctrl: &mut C, name: &str) -> (r: Result<(), CameleonError>)
    ensures
        extends(old(ctxt).context_calls(), final(ctxt).context_calls()),
        extends(old(ctrl).control_calls(), final(ctrl).control_calls()),
        step_at(NodeStep::Execute(name@), final(ctxt).context_calls(), old(ctxt).context_calls().len() as int) matches Some(
            (o, k),
        ) && final(ctxt).context_calls().len() == old(ctxt).context_calls().len() + k && ends_as(o, r),
{
    let found = ctxt.node_interface(name);
    match check_node(name, found, NodeInterface::Command) {
        Err(e) => Err(e),
        Ok(()) => ctxt.execute_command(ctrl, name),
    }
}


/// Information of the camera.
#[derive(Clone, Debug, PartialEq, Eq, Hash)]
pub struct CameraInfo {
    /// Vendor name of the camera.
    pub vendor_name: String,
    /// Model name of the camera.
    pub model_name: String,
    /// Serial number of the camera.
    pub serial_number: String,
}

/// The device control handle and the `GenApi` context of a camera,
/// borrowed together.
pub struct ParamsCtxt<'a, Ctrl, Ctxt> {
    pub ctrl: &'a mut Ctrl,
    pub ctxt: &'a mut Ctxt,
}

/// Access to a `GenICam` compatible camera.
#[derive(Debug, Clone)]
pub struct Camera<Ctrl, Strm, Ctxt> {
    /// Device control handle of the camera.
    pub ctrl: Ctrl,
    /// Payload stream handle of the camera.
    pub strm: Strm,
    /// `GenApi` context of the camera.
    pub ctxt: Option<Ctxt>,
    /// Information of the camera.
    info: CameraInfo,
}

impl<Ctrl, Strm, Ctxt> Camera<Ctrl, Strm, Ctxt> {
    pub closed spec fn spec_info(&self) -> CameraInfo {
        self.info
    }

    pub closed spec fn spec_ctrl(&self) -> Ctrl {
        self.ctrl
    }

    pub closed spec fn spec_strm(&self) -> Strm {
        self.strm
    }

    pub closed spec fn spec_ctxt(&self) -> Option<Ctxt> {
        self.ctxt
    }

    /// Constructs a camera.
    pub fn new(ctrl: Ctrl, strm: Strm, ctxt: Option<Ctxt>, info: CameraInfo) -> (r: Self)
        ensures
            r.spec_ctrl() == ctrl,
            r.spec_strm() == strm,
            r.spec_ctxt() == ctxt,
            r.spec_info() == info,
    {
        Camera { ctrl, strm, ctxt, info }
    }

    /// Returns basic information of the camera, which is known without
    /// opening it.
    pub fn info(&self) -> (r: &CameraInfo)
        ensures
            *r == self.spec_info(),
    {
        &self.info
    }

    /// Opens the camera: the control handle, then, once it is open, the
    /// stream handle. The first error is passed on.
    pub fn open(&mut self) -> (r: Result<(), CameleonError>)
        where
            Ctrl: DeviceControl,
            Strm: StreamInterface,
        ensures
            final(self).spec_ctxt() == old(self).spec_ctxt(),
            final(self).spec_info() == old(self).spec_info(),
            ({
                let oc = old(self).spec_ctrl().control_calls();
                let fc = final(self).spec_ctrl().control_calls();
                let os = old(self).spec_strm().stream_calls();
                let fs = final(self).spec_strm().stream_calls();
                &&& fc.len() == oc.len() + 1
                &&& extends(oc, fc)
                &&& fc.last() matches ControlCall::Open(r1)
                &&& match r1 {
                    Err(e) => r == Err::<(), CameleonError>(CameleonError::ControlError(e))
                        && final(self).spec_strm() == old(self).spec_strm(),
                    Ok(_) => fs.len() == os.len() + 1 && extends(os, fs) && (fs.last() matches StreamCall::Open(r2)
                        && r == match r2 {
                        Ok(_) => Ok::<(), CameleonError>(()),
                        Err(e) => Err(CameleonError::StreamError(e)),
                    }),
                }
            }),
    {
        if let Err(e) = self.ctrl.open() {
            return Err(CameleonError::ControlError(e));
        }
        if let Err(e) = self.strm.open() {
            return Err(CameleonError::StreamError(e));
        }
        Ok(())
    }

    /// The control handle and the context, borrowed together; an error
    /// when no context is loaded.
    pub fn params_ctxt(&mut self) -> (r: Result<ParamsCtxt<'_, Ctrl, Ctxt>, CameleonError>)
        ensures
            old(self).spec_ctxt() is None ==> r == Err::<ParamsCtxt<'_, Ctrl, Ctxt>, CameleonError>(
                CameleonError::GenApiContextMissing,
            ),
            old(self).spec_ctxt() is None ==> *final(self) == *old(self),
            old(self).spec_ctxt() matches Some(c) ==> (r matches Ok(p) && *p.ctxt == c && *p.ctrl
                == old(self).spec_ctrl() && final(self).spec_ctrl() == *final(p.ctrl)
                && final(self).spec_ctxt() == Some(*final(p.ctxt)) && final(self).spec_strm()
                == old(self).spec_strm() && final(self).spec_info() == old(self).spec_info()),
    {
        match &mut self.ctxt {
            Some(ctxt) => Ok(ParamsCtxt { ctrl: &mut self.ctrl, ctxt }),
            None => Err(CameleonError::GenApiContextMissing),
        }
    }

    /// Enables streaming on the device, locks the transport layer
    /// parameters and starts the acquisition.
    fn begin_acquisition(&mut self) -> (r: Result<(), CameleonError>)
        where
            Ctrl: DeviceControl,
            Ctxt: GenApiCtxt,
        ensures
            begin_record(
                old(self).spec_ctrl().control_calls(),
                final(self).spec_ctrl().control_calls(),
                ctxt_calls(old(self).spec_ctxt()),
                ctxt_calls(final(self).spec_ctxt()),
            ) matches Some(o) && ends_as(o, r),
            final(self).spec_info() == old(self).spec_info(),
            final(self).spec_strm() == old(self).spec_strm(),
            final(self).spec_ctxt() is Some == old(self).spec_ctxt() is Some,
    {
        if let Err(e) = self.ctrl.enable_streaming() {
            return Err(CameleonError::ControlError(e));
        }
        match &mut self.ctxt {
            Some(ctxt) => {
                let first = set_integer_node(ctxt, &mut self.ctrl, "TLParamsLocked", 1);
                match first {
                    Err(e) => Err(e),
                    Ok(()) => {
                        execute_node(ctxt, &mut self.ctrl, "AcquisitionStart")
                    },
                }
            },
            None => Err(CameleonError::GenApiContextMissing),
        }
    }

    /// Starts streaming and returns the stream of payloads: streaming is
    /// enabled on the device, the transport layer parameters locked and the
    /// acquisition started, then the stream handle, called with the control
    /// handle and `payload_rx`, starts the stream, which is returned. A
    /// missing `TLParamsLocked` or `AcquisitionStart` node, or one of
    /// another interface, is an `InvalidGenApiXml` error that names it. No
    /// other parameter is written.
    ///
    /// A `GenApi` context must be loaded first.
    pub fn start_streaming(&mut self, payload_rx: Receiver<Vec<u8>>) -> (r: Result<Strm::Stream, CameleonError>)
        where
            Ctrl: DeviceControl,
            Strm: StreamInterface,
            Ctxt: GenApiCtxt,
        ensures
            final(self).spec_info() == old(self).spec_info(),
            final(self).spec_strm() == old(self).spec_strm(),
            final(self).spec_ctxt() is Some == old(self).spec_ctxt() is Some,
            ({
                let oc = old(self).spec_ctrl().control_calls();
                let fc = final(self).spec_ctrl().control_calls();
                let rb = begin_record(oc, fc, ctxt_calls(old(self).spec_ctxt()), ctxt_calls(final(self).spec_ctxt()));
                &&& rb is Some
                &&& rb matches Some(o) ==> (o != Outcome::Done ==> (r matches Err(e) && fails_as(o, e)))
                &&& rb == Some(Outcome::Done) ==> exists|c: Ctrl, res: Result<Strm::Stream, StreamError>|
                    #![trigger old(self).spec_strm().start_gives(c, payload_rx, res)]
                    extends(oc, c.control_calls()) && extends(c.control_calls(), fc)
                        && old(self).spec_strm().start_gives(c, payload_rx, res) && r == lift_stream_result(res)
            }),
    {
        match self.begin_acquisition() {
            Err(e) => return Err(e),
            Ok(()) => {},
        }
        let ghost c = self.ctrl;
        let ghost rx = payload_rx;
        let res = self.strm.start_streaming(&mut self.ctrl, payload_rx);
        proof {
            assert(self.strm.start_gives(c, rx, res));
            assert(extends(c.control_calls(), self.ctrl.control_calls()));
        }
        match res {
            Ok(s) => Ok(s),
            Err(e) => Err(CameleonError::StreamError(e)),
        }
    }

    /// Starts streaming and returns a producer of payloads, after the same
    /// steps as [`Self::start_streaming`]; the stream handle, called with the
    /// control handle and `payload_rx`, starts the producer, which is
    /// returned.
    ///
    /// A `GenApi` context must be loaded first.
    pub fn start_generator(&mut self, payload_rx: Receiver<Vec<u8>>) -> (r: Result<Strm::Generator, CameleonError>)
        where
            Ctrl: DeviceControl,
            Strm: StreamInterface,
            Ctxt: GenApiCtxt,
        ensures
            final(self).spec_info() == old(self).spec_info(),
            final(self).spec_strm() == old(self).spec_strm(),
            final(self).spec_ctxt() is Some == old(self).spec_ctxt() is Some,
            ({
                let oc = old(self).spec_ctrl().control_calls();
                let fc = final(self).spec_ctrl().control_calls();
                let rb = begin_record(oc, fc, ctxt_calls(old(self).spec_ctxt()), ctxt_calls(final(self).spec_ctxt()));
                &&& rb is Some
                &&& rb matches Some(o) ==> (o != Outcome::Done ==> (r matches Err(e) && fails_as(o, e)))
                &&& rb == Some(Outcome::Done) ==> exists|c: Ctrl, res: Result<Strm::Generator, StreamError>|
                    #![trigger old(self).spec_strm().generator_gives(c, payload_rx, res)]
                    extends(oc, c.control_calls()) && extends(c.control_calls(), fc)
                        && old(self).spec_strm().generator_gives(c, payload_rx, res) && r == lift_stream_result(res)
            }),
    {
        match self.begin_acquisition() {
            Err(e) => return Err(e),
            Ok(()) => {},
        }
        let ghost c = self.ctrl;
        let ghost rx = payload_rx;
        let res = self.strm.start_generator(&mut self.ctrl, payload_rx);
        proof {
            assert(self.strm.generator_gives(c, rx, res));
            assert(extends(c.control_calls(), self.ctrl.control_calls()));
        }
        match res {
            Ok(s) => Ok(s),
            Err(e) => Err(CameleonError::StreamError(e)),
        }
    }

    /// Stops the acquisition, unlocks the transport layer parameters and
    /// disables streaming on the device, stopping at the first failure; a
    /// missing `AcquisitionStop` or `TLParamsLocked` node, or one of another
    /// interface, is an `InvalidGenApiXml` error that names it. Without a
    /// context nothing is called.
    pub fn stop_streaming(&mut self) -> (r: Result<(), CameleonError>)
        where
            Ctrl: DeviceControl,
            Ctxt: GenApiCtxt,
        ensures
            old(self).spec_ctxt() is None ==> r == Err::<(), CameleonError>(CameleonError::GenApiContextMissing)
                && *final(self) == *old(self),
            old(self).spec_ctxt() matches Some(x0) ==> (final(self).spec_ctxt() matches Some(x1) && stop_record(
                x0.context_calls(),
                x1.context_calls(),
                old(self).spec_ctrl().control_calls(),
                final(self).spec_ctrl().control_calls(),
            ) matches Some(o) && ends_as(o, r)),
            final(self).spec_info() == old(self).spec_info(),
            final(self).spec_strm() == old(self).spec_strm(),
    {
        match &mut self.ctxt {
            None => Err(CameleonError::GenApiContextMissing),
            Some(ctxt) => {
                let first = execute_node(ctxt, &mut self.ctrl, "AcquisitionStop");
                if first.is_err() {
                    return first;
                }
                let second = set_integer_node(ctxt, &mut self.ctrl, "TLParamsLocked", 0);
                if second.is_err() {
                    return second;
                }
                match self.ctrl.disable_streaming() {
                    Ok(()) => Ok(()),
                    Err(e) => Err(CameleonError::ControlError(e)),
                }
            },
        }
    }

    /// Closes the camera: with a context, stops streaming and, once that
    /// succeeded, drops the context's cache. Without a context there is no
    /// acquisition to stop and nothing is called.
    pub fn close(&mut self) -> (r: Result<(), CameleonError>)
        where
            Ctrl: DeviceControl,
            Ctxt: GenApiCtxt,
        ensures
            old(self).spec_ctxt() is None ==> r == Ok::<(), CameleonError>(()) && *final(self) == *old(self),
            old(self).spec_ctxt() matches Some(x0) ==> (final(self).spec_ctxt() matches Some(x1) && ({
                let oc = old(self).spec_ctrl().control_calls();
                let fc = final(self).spec_ctrl().control_calls();
                let fx = x1.context_calls();
                ||| (r is Ok && fx.len() > 0 && fx.last() == ContextCall::ClearCache && stop_record(
                    x0.context_calls(),
                    fx.drop_last(),
                    oc,
                    fc,
                ) == Some(Outcome::Done))
                ||| (r is Err && (stop_record(x0.context_calls(), fx, oc, fc) matches Some(o) && ends_as(o, r)))
            })),
            final(self).spec_info() == old(self).spec_info(),
            final(self).spec_strm() == old(self).spec_strm(),
    {
        if self.ctxt.is_none() {
            return Ok(());
        }
        self.stop_streaming()?;
        if let Some(ctxt) = &mut self.ctxt {
            ctxt.clear_cache();
        }
        Ok(())
    }

    /// Converts the handle types, as `From` would.
    pub fn convert_from<Ctrl2, Strm2, Ctxt2>(from: Camera<Ctrl2, Strm2, Ctxt2>) -> (r: Self)
        where
            Ctrl: From<Ctrl2>,
            Strm: From<Strm2>,
            Ctxt: From<Ctxt2>,
        ensures
            call_ensures(Ctrl::from, (from.spec_ctrl(),), r.spec_ctrl()),
            call_ensures(Strm::from, (from.spec_strm(),), r.spec_strm()),
            from.spec_ctxt() is None ==> r.spec_ctxt() is None,
            from.spec_ctxt() matches Some(c) ==> (r.spec_ctxt() matches Some(d) && call_ensures(Ctxt::from, (c,), d)),
            r.spec_info() == from.spec_info(),
    {
        let Camera { ctrl, strm, ctxt, info } = from;
        let ctxt = match ctxt {
            Some(c) => Some(Ctxt::from(c)),
            None => None,
        };
        Camera::new(Ctrl::from(ctrl), Strm::from(strm), ctxt, info)
    }

    /// Converts the handle types, as `Into` would.
    pub fn convert_into<Ctrl2, Strm2, Ctxt2>(self) -> (r: Camera<Ctrl2, Strm2, Ctxt2>)
        where
            Ctrl: Into<Ctrl2>,
            Strm: Into<Strm2>,
            Ctxt: Into<Ctxt2>,
        ensures
            call_ensures(Ctrl::into, (self.spec_ctrl(),), r.spec_ctrl()),
            call_ensures(Strm::into, (self.spec_strm(),), r.spec_strm()),
            self.spec_ctxt() is None ==> r.spec_ctxt() is None,
            self.spec_ctxt() matches Some(c) ==> (r.spec_ctxt() matches Some(d) && call_ensures(Ctxt::into, (c,), d)),
            r.spec_info() == self.spec_info(),
    {
        let Camera { ctrl, strm, ctxt, info } = self;
        let ctxt = match ctxt {
            Some(c) => Some(c.into()),
            None => None,
        };
        Camera::new(ctrl.into(), strm.into(), ctxt, info)
    }

    /// Sets a context to the camera.
    pub fn set_context<Ctxt2>(self, ctxt: Ctxt2) -> (r: Camera<Ctrl, Strm, Ctxt2>)
        ensures
            r.spec_ctrl() == self.spec_ctrl(),
            r.spec_strm() == self.spec_strm(),
            r.spec_ctxt() == Some(ctxt),
            r.spec_info() == self.spec_info(),
    {
        Camera { ctrl: self.ctrl, strm: self.strm, ctxt: Some(ctxt), info: self.info }
    }
}

/// Over any run of camera states in which each step keeps the camera's
/// information, as `open`, `close`, `params_ctxt`, `start_streaming`,
/// `start_generator` and `stop_streaming` each state that they do, every
/// state has the information of the first: the one the camera was made
/// with, which `info` returns.
pub proof fn lemma_info_stays<Ctrl, Strm, Ctxt>(states: Seq<Camera<Ctrl, Strm, Ctxt>>)
    requires
        forall|i: int, j: int|
            #![trigger states[i], states[j]]
            0 <= i && j == i + 1 && j < states.len() ==> states[j].spec_info() == states[i].spec_info(),
    ensures
        forall|i: int| 0 <= i < states.len() ==> #[trigger] states[i].spec_info() == states[0].spec_info(),
    decreases states.len(),
{
    if states.len() > 1 {
        let init = states.drop_last();
        assert forall|i: int, j: int|
            #![trigger init[i], init[j]]
            0 <= i && j == i + 1 && j < init.len() implies init[j].spec_info() == init[i].spec_info() by {
            assert(states[i] == init[i] && states[j] == init[j]);
        }
        lemma_info_stays(init);
        assert forall|i: int| 0 <= i < states.len() implies #[trigger] states[i].spec_info()
            == states[0].spec_info() by {
            assert(init[0] == states[0]);
            if i < states.len() - 1 {
                assert(init[i] == states[i]);
            } else {
                let k = i - 1;
                assert(init[k] == states[k]);
                assert(states[i].spec_info() == states[k].spec_info());
            }
        }
    }
}

/// `U::from` gives one value on `x`: two calls on it give the same.
pub open spec fn converts_uniquely<T, U: From<T>>(x: T) -> bool {
    forall|y1: U, y2: U|
        #![trigger call_ensures(U::from, (x,), y1), call_ensures(U::from, (x,), y2)]
        call_ensures(U::from, (x,), y1) && call_ensures(U::from, (x,), y2) ==> y1 == y2
}

/// Converting a camera with `convert_into` gives the camera that
/// `convert_from` gives, where each conversion of its handles and context
/// gives one value on them: the same handles, context and information.
pub proof fn lemma_convert_into_is_convert_from<Ctrl, Strm, Ctxt, Ctrl2, Strm2, Ctxt2>(
    c: Camera<Ctrl, Strm, Ctxt>,
    a: Camera<Ctrl2, Strm2, Ctxt2>,
    b: Camera<Ctrl2, Strm2, Ctxt2>,
)
    where
        Ctrl2: From<Ctrl>,
        Strm2: From<Strm>,
        Ctxt2: From<Ctxt>,
    requires
        converts_uniquely::<Ctrl, Ctrl2>(c.spec_ctrl()),
        converts_uniquely::<Strm, Strm2>(c.spec_strm()),
        c.spec_ctxt() matches Some(x) ==> converts_uniquely::<Ctxt, Ctxt2>(x),
        call_ensures(Ctrl::into, (c.spec_ctrl(),), a.spec_ctrl()),
        call_ensures(Strm::into, (c.spec_strm(),), a.spec_strm()),
        c.spec_ctxt() is None ==> a.spec_ctxt() is None,
        c.spec_ctxt() matches Some(x) ==> (a.spec_ctxt() matches Some(y) && call_ensures(Ctxt::into, (x,), y)),
        a.spec_info() == c.spec_info(),
        call_ensures(Ctrl2::from, (c.spec_ctrl(),), b.spec_ctrl()),
        call_ensures(Strm2::from, (c.spec_strm(),), b.spec_strm()),
        c.spec_ctxt() is None ==> b.spec_ctxt() is None,
        c.spec_ctxt() matches Some(x) ==> (b.spec_ctxt() matches Some(y) && call_ensures(Ctxt2::from, (x,), y)),
        b.spec_info() == c.spec_info(),
    ensures
        a.spec_ctrl() == b.spec_ctrl(),
        a.spec_strm() == b.spec_strm(),
        a.spec_ctxt() == b.spec_ctxt(),
        a.spec_info() == b.spec_info(),
{
    assert(call_ensures(Ctrl2::from, (c.spec_ctrl(),), a.spec_ctrl()));
    assert(call_ensures(Strm2::from, (c.spec_strm(),), a.spec_strm()));
    if let Some(x) = c.spec_ctxt() {
        let ya = a.spec_ctxt()->Some_0;
        let yb = b.spec_ctxt()->Some_0;
        assert(call_ensures(Ctxt2::from, (x,), ya));
        assert(call_ensures(Ctxt2::from, (x,), yb));
        assert(ya == yb);
    }
}

} // verus!
