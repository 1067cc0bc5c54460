//! The resilient client: endpoint, policy, and the reconnect and
//! send-with-retry protocols.
//!
//! The client owns no socket. Each delivery operation yields a step value
//! that names the one transport action to perform next — open a connection
//! or write the payload — and the caller reports the outcome back to obtain
//! the following step. The decisions (when to retry, when to give up, which
//! error to surface) all live here; a thin unverified shell performs the
//! actions against real sockets.

use vstd::prelude::*;
use vstd::string::StringExecFns;
use vstd::utf8::encode_utf8;

use crate::addr::check_ip_literal;
use crate::addr::is_ip_literal;
use crate::errors::ErrorModel;
use crate::errors::GraphiteError;
use crate::errors::GraphiteErrorKind;
use crate::errors::exhaustion_model;
use crate::errors::exhaustion_without_attempt_model;
use crate::message::GraphiteMessage;
use crate::message::spec_serialize;
use crate::message::spec_serialize_batch;

verus! {

/// Retries used by reconnect and send loops when none are chosen.
pub const DEFAULT_RETRIES: u8 = 3;

/// Per-attempt connection timeout, in milliseconds, when none is chosen.
pub const DEFAULT_TIMEOUT_MS: u64 = 5000;

/// Keep-alive applied to opened connections, in seconds, when none is
/// chosen.
pub const DEFAULT_KEEP_ALIVE_SECS: u64 = 240;

/// The outcome of one attempt to open and tune a connection, as the
/// transport reports it.
pub enum ConnectOutcome {
    /// A connection was opened and its socket options were applied.
    Connected,
    /// No connection could be opened; the transport's description of why.
    ConnectFailed(String),
    /// A connection was opened but applying socket options to it failed.
    TuningFailed(String),
}

/// The outcome of one attempt to write a whole payload.
pub enum WriteOutcome {
    /// Every byte of the payload was accepted.
    Written,
    /// The write failed; the transport's description of why. A partial write
    /// is a failure.
    WriteFailed(String),
}

/// Model of a `ConnectOutcome`.
pub enum ConnectOutcomeModel {
    Connected,
    ConnectFailed(Seq<char>),
    TuningFailed(Seq<char>),
}

/// Model of a `WriteOutcome`.
pub enum WriteOutcomeModel {
    Written,
    WriteFailed(Seq<char>),
}

impl View for ConnectOutcome {
    type V = ConnectOutcomeModel;

    open spec fn view(&self) -> ConnectOutcomeModel {
        match self {
            ConnectOutcome::Connected => ConnectOutcomeModel::Connected,
            ConnectOutcome::ConnectFailed(e) => ConnectOutcomeModel::ConnectFailed(e@),
            ConnectOutcome::TuningFailed(e) => ConnectOutcomeModel::TuningFailed(e@),
        }
    }
}

impl View for WriteOutcome {
    type V = WriteOutcomeModel;

    open spec fn view(&self) -> WriteOutcomeModel {
        match self {
            WriteOutcome::Written => WriteOutcomeModel::Written,
            WriteOutcome::WriteFailed(e) => WriteOutcomeModel::WriteFailed(e@),
        }
    }
}

/// A reconnect in progress: how many connection attempts its budget allows
/// and how many have failed so far.
pub struct ReconnectTask {
    retries: u8,
    failed: u8,
}

/// Model of a `ReconnectTask`.
pub struct ReconnectModel {
    pub retries: int,
    pub failed: int,
}

impl View for ReconnectTask {
    type V = ReconnectModel;

    closed spec fn view(&self) -> ReconnectModel {
        ReconnectModel { retries: self.retries as int, failed: self.failed as int }
    }
}

impl ReconnectModel {
    /// The counters a reconnect in progress always satisfies.
    pub open spec fn wf(self) -> bool {
        0 <= self.failed < self.retries <= 255
    }
}

/// What a reconnect asks of its caller next.
pub enum ReconnectStep {
    /// Open one connection to the endpoint within the policy timeout, apply
    /// the socket options, and report the outcome to the task.
    Connect(ReconnectTask),
    /// A new live connection was confirmed: replace the old handle with it
    /// and discard the old one.
    Replaced,
    /// The reconnect is over without a new connection.
    Failed(GraphiteError),
}

/// Model of a `ReconnectStep`.
pub enum ReconnectStepModel {
    Connect(ReconnectModel),
    Replaced,
    Failed(ErrorModel),
}

impl View for ReconnectStep {
    type V = ReconnectStepModel;

    open spec fn view(&self) -> ReconnectStepModel {
        match self {
            ReconnectStep::Connect(t) => ReconnectStepModel::Connect(t@),
            ReconnectStep::Replaced => ReconnectStepModel::Replaced,
            ReconnectStep::Failed(e) => ReconnectStepModel::Failed(e@),
        }
    }
}

/// The first step of a reconnect with the given budget: one connection
/// attempt, unless the budget allows none.
pub open spec fn reconnect_begin_model(retries: int) -> ReconnectStepModel {
    if retries <= 0 {
        ReconnectStepModel::Failed(exhaustion_without_attempt_model())
    } else {
        ReconnectStepModel::Connect(ReconnectModel { retries, failed: 0 })
    }
}

/// The step that follows a connection outcome during a reconnect: success
/// replaces the handle, a tuning failure ends the reconnect at once, and a
/// connect failure either retries or exhausts the budget, reporting the most
/// recent failure.
pub open spec fn reconnect_step_model(m: ReconnectModel, out: ConnectOutcomeModel)
    -> ReconnectStepModel {
    match out {
        ConnectOutcomeModel::Connected => ReconnectStepModel::Replaced,
        ConnectOutcomeModel::TuningFailed(e) => ReconnectStepModel::Failed(
            ErrorModel { kind: GraphiteErrorKind::Tuning, msg: e },
        ),
        ConnectOutcomeModel::ConnectFailed(e) => {
            if m.failed + 1 < m.retries {
                ReconnectStepModel::Connect(
                    ReconnectModel { retries: m.retries, failed: m.failed + 1 },
                )
            } else {
                ReconnectStepModel::Failed(exhaustion_model(e))
            }
        },
    }
}

impl ReconnectTask {
    /// Advances the reconnect after one connection attempt, exactly as
    /// `reconnect_step_model` describes.
    pub fn on_connect_outcome(self, out: ConnectOutcome) -> (r: ReconnectStep)
        requires
            self@.wf(),
        ensures
            r@ == reconnect_step_model(self@, out@),
            r@ is Connect ==> r@->Connect_0.wf(),
    {
        match out {
            ConnectOutcome::Connected => ReconnectStep::Replaced,
            ConnectOutcome::TuningFailed(e) => ReconnectStep::Failed(
                GraphiteError { kind: GraphiteErrorKind::Tuning, msg: e },
            ),
            ConnectOutcome::ConnectFailed(e) => {
                if self.failed + 1 < self.retries {
                    ReconnectStep::Connect(
                        ReconnectTask { retries: self.retries, failed: self.failed + 1 },
                    )
                } else {
                    ReconnectStep::Failed(GraphiteError::exhaustion(&e))
                }
            },
        }
    }
}

/// Which transport action a send is waiting on.
pub enum SendPhase {
    /// The next action is a write of the payload.
    Writing,
    /// A write failed and a reconnect is in progress; the field counts its
    /// failed connection attempts.
    Reconnecting(u8),
}

/// Model of a `SendPhase`.
pub enum SendPhaseModel {
    Writing,
    Reconnecting(int),
}

impl View for SendPhase {
    type V = SendPhaseModel;

    open spec fn view(&self) -> SendPhaseModel {
        match self {
            SendPhase::Writing => SendPhaseModel::Writing,
            SendPhase::Reconnecting(f) => SendPhaseModel::Reconnecting(*f as int),
        }
    }
}

/// A send in progress: the payload computed once and reused by every
/// attempt, the retry budget, how many write attempts have completed, the
/// most recent write failure, and the phase.
pub struct SendTask {
    retries: u8,
    attempts: u8,
    payload: String,
    last_err: Option<String>,
    phase: SendPhase,
}

/// Model of a `SendTask`.
pub struct SendModel {
    pub retries: int,
    pub attempts: int,
    pub payload: Seq<char>,
    pub last_err: Option<Seq<char>>,
    pub phase: SendPhaseModel,
}

impl View for SendTask {
    type V = SendModel;

    closed spec fn view(&self) -> SendModel {
        SendModel {
            retries: self.retries as int,
            attempts: self.attempts as int,
            payload: self.payload@,
            last_err: match &self.last_err {
                Some(e) => Some(e@),
                None => None,
            },
            phase: self.phase@,
        }
    }
}

impl SendModel {
    /// The counters a send in progress always satisfies.
    pub open spec fn wf(self) -> bool {
        &&& 1 <= self.retries <= 255
        &&& 0 <= self.attempts < self.retries
        &&& match self.phase {
            SendPhaseModel::Writing => true,
            SendPhaseModel::Reconnecting(f) => 0 <= f < self.retries && self.last_err is Some,
        }
    }
}

/// What a send asks of its caller next.
pub enum SendStep {
    /// Write the task's whole payload to the current connection and report
    /// the outcome to the task.
    Write(SendTask),
    /// Open one connection to the endpoint within the policy timeout, apply
    /// the socket options, and report the outcome to the task; on success
    /// the new connection replaces the old handle.
    Connect(SendTask),
    /// Every byte was accepted; the value is the number of bytes written:
    /// the length of the payload's UTF-8 encoding.
    Sent(usize),
    /// The send is over without delivery.
    Failed(GraphiteError),
}

/// Model of a `SendStep`.
pub enum SendStepModel {
    Write(SendModel),
    Connect(SendModel),
    Sent(int),
    Failed(ErrorModel),
}

impl View for SendStep {
    type V = SendStepModel;

    open spec fn view(&self) -> SendStepModel {
        match self {
            SendStep::Write(t) => SendStepModel::Write(t@),
            SendStep::Connect(t) => SendStepModel::Connect(t@),
            SendStep::Sent(len) => SendStepModel::Sent(*len as int),
            SendStep::Failed(e) => SendStepModel::Failed(e@),
        }
    }
}

/// The terminal error of a send whose budget is spent: built from the most
/// recent write failure observed, if any attempt was allowed at all.
pub open spec fn send_exhaustion_model(last: Option<Seq<char>>) -> ErrorModel {
    match last {
        Some(e) => exhaustion_model(e),
        None => exhaustion_without_attempt_model(),
    }
}

/// The first step of a send with the given budget and payload: one write
/// attempt, unless the budget allows none.
pub open spec fn send_begin_model(retries: int, payload: Seq<char>) -> SendStepModel {
    if retries <= 0 {
        SendStepModel::Failed(exhaustion_without_attempt_model())
    } else {
        SendStepModel::Write(
            SendModel {
                retries,
                attempts: 0,
                payload,
                last_err: None,
                phase: SendPhaseModel::Writing,
            },
        )
    }
}

/// The step that follows a write outcome: success delivers the whole
/// payload, and a failure is recorded and answered with a reconnect, whose
/// first connection attempt is requested at once.
pub open spec fn send_write_step_model(m: SendModel, out: WriteOutcomeModel) -> SendStepModel {
    match out {
        WriteOutcomeModel::Written => SendStepModel::Sent(encode_utf8(m.payload).len() as int),
        WriteOutcomeModel::WriteFailed(e) => SendStepModel::Connect(
            SendModel {
                retries: m.retries,
                attempts: m.attempts,
                payload: m.payload,
                last_err: Some(e),
                phase: SendPhaseModel::Reconnecting(0),
            },
        ),
    }
}

/// The step that follows a connection outcome during a send's reconnect:
/// success counts the failed write attempt and either retries the write with
/// the same whole payload or exhausts the budget with the last write
/// failure; a connect failure either retries the connection or exhausts the
/// reconnect with the last connect failure, which aborts the send; a tuning
/// failure aborts the send at once.
pub open spec fn send_connect_step_model(m: SendModel, out: ConnectOutcomeModel) -> SendStepModel {
    let failed = match m.phase {
        SendPhaseModel::Reconnecting(f) => f,
        SendPhaseModel::Writing => 0,
    };
    match out {
        ConnectOutcomeModel::Connected => {
            if m.attempts + 1 < m.retries {
                SendStepModel::Write(
                    SendModel {
                        retries: m.retries,
                        attempts: m.attempts + 1,
                        payload: m.payload,
                        last_err: m.last_err,
                        phase: SendPhaseModel::Writing,
                    },
                )
            } else {
                SendStepModel::Failed(send_exhaustion_model(m.last_err))
            }
        },
        ConnectOutcomeModel::ConnectFailed(e) => {
            if failed + 1 < m.retries {
                SendStepModel::Connect(
                    SendModel {
                        retries: m.retries,
                        attempts: m.attempts,
                        payload: m.payload,
                        last_err: m.last_err,
                        phase: SendPhaseModel::Reconnecting(failed + 1),
                    },
                )
            } else {
                SendStepModel::Failed(exhaustion_model(e))
            }
        },
        ConnectOutcomeModel::TuningFailed(e) => SendStepModel::Failed(
            ErrorModel { kind: GraphiteErrorKind::Tuning, msg: e },
        ),
    }
}

impl SendTask {
    /// Advances the send after a write attempt, exactly as
    /// `send_write_step_model` describes.
    pub fn on_write_outcome(self, out: WriteOutcome) -> (r: SendStep)
        requires
            self@.wf(),
            self@.phase is Writing,
        ensures
            r@ == send_write_step_model(self@, out@),
            r@ is Connect ==> r@->Connect_0.wf(),
    {
        match out {
            WriteOutcome::Written => {
                let bytes = self.payload.as_str().as_bytes();
                SendStep::Sent(bytes.len())
            },
            WriteOutcome::WriteFailed(e) => SendStep::Connect(
                SendTask {
                    retries: self.retries,
                    attempts: self.attempts,
                    payload: self.payload,
                    last_err: Some(e),
                    phase: SendPhase::Reconnecting(0),
                },
            ),
        }
    }

    /// Advances the send after a connection attempt of its reconnect,
    /// exactly as `send_connect_step_model` describes.
    pub fn on_connect_outcome(self, out: ConnectOutcome) -> (r: SendStep)
        requires
            self@.wf(),
            self@.phase is Reconnecting,
        ensures
            r@ == send_connect_step_model(self@, out@),
            r@ is Write ==> r@->Write_0.wf(),
            r@ is Connect ==> r@->Connect_0.wf(),
    {
        let failed: u8 = match &self.phase {
            SendPhase::Reconnecting(f) => *f,
            SendPhase::Writing => 0,
        };
        match out {
            ConnectOutcome::Connected => {
                if self.attempts + 1 < self.retries {
                    SendStep::Write(
                        SendTask {
                            retries: self.retries,
                            attempts: self.attempts + 1,
                            payload: self.payload,
                            last_err: self.last_err,
                            phase: SendPhase::Writing,
                        },
                    )
                } else {
                    match &self.last_err {
                        Some(e) => SendStep::Failed(GraphiteError::exhaustion(e)),
                        None => SendStep::Failed(GraphiteError::exhaustion_without_attempt()),
                    }
                }
            },
            ConnectOutcome::ConnectFailed(e) => {
                if failed + 1 < self.retries {
                    SendStep::Connect(
                        SendTask {
                            retries: self.retries,
                            attempts: self.attempts,
                            payload: self.payload,
                            last_err: self.last_err,
                            phase: SendPhase::Reconnecting(failed + 1),
                        },
                    )
                } else {
                    SendStep::Failed(GraphiteError::exhaustion(&e))
                }
            },
            ConnectOutcome::TuningFailed(e) => SendStep::Failed(
                GraphiteError { kind: GraphiteErrorKind::Tuning, msg: e },
            ),
        }
    }

    /// The payload this send writes on every attempt.
    pub fn payload(&self) -> (r: &str)
        ensures
            r@ == self@.payload,
    {
        self.payload.as_str()
    }
}

/// A client bound to one endpoint and one resilience policy, both fixed at
/// construction.
pub struct GraphiteClient {
    address: String,
    port: u16,
    retries: u8,
    timeout_ms: u64,
    keep_alive_secs: u64,
}

/// Model of a `GraphiteClient`.
pub struct ClientModel {
    pub address: Seq<char>,
    pub port: int,
    pub retries: int,
    pub timeout_ms: int,
    pub keep_alive_secs: int,
}

impl View for GraphiteClient {
    type V = ClientModel;

    closed spec fn view(&self) -> ClientModel {
        ClientModel {
            address: self.address@,
            port: self.port as int,
            retries: self.retries as int,
            timeout_ms: self.timeout_ms as int,
            keep_alive_secs: self.keep_alive_secs as int,
        }
    }
}

impl GraphiteClient {
    /// Builds a client for the given endpoint and policy. The address must
    /// be a literal IPv4 or IPv6 address: anything else — a hostname in
    /// particular — is rejected at once, before any connection is attempted.
    /// Options left out take the documented defaults.
    pub fn new(
        address: &str,
        port: u16,
        retries: Option<u8>,
        timeout_ms: Option<u64>,
        keep_alive_secs: Option<u64>,
    ) -> (r: Result<GraphiteClient, GraphiteError>)
        ensures
            r is Ok <==> is_ip_literal(address@),
            r is Ok ==> r->Ok_0@ == (ClientModel {
                address: address@,
                port: port as int,
                retries: (match retries {
                    Some(v) => v as int,
                    None => DEFAULT_RETRIES as int,
                }),
                timeout_ms: (match timeout_ms {
                    Some(v) => v as int,
                    None => DEFAULT_TIMEOUT_MS as int,
                }),
                keep_alive_secs: (match keep_alive_secs {
                    Some(v) => v as int,
                    None => DEFAULT_KEEP_ALIVE_SECS as int,
                }),
            }),
            r is Err ==> r->Err_0@ == (ErrorModel {
                kind: GraphiteErrorKind::AddressParse,
                msg: "invalid IP address syntax"@,
            }),
    {
        if !check_ip_literal(address) {
            return Err(
                GraphiteError {
                    kind: GraphiteErrorKind::AddressParse,
                    msg: String::from_str("invalid IP address syntax"),
                },
            );
        }
        Ok(
            GraphiteClient {
                address: String::from_str(address),
                port,
                retries: match retries {
                    Some(v) => v,
                    None => DEFAULT_RETRIES,
                },
                timeout_ms: match timeout_ms {
                    Some(v) => v,
                    None => DEFAULT_TIMEOUT_MS,
                },
                keep_alive_secs: match keep_alive_secs {
                    Some(v) => v,
                    None => DEFAULT_KEEP_ALIVE_SECS,
                },
            },
        )
    }

    /// Decides whether construction succeeds, from the outcome of the single
    /// connection attempt made while building a client. Construction makes
    /// exactly one attempt: any failure — connect or tuning — fails
    /// construction at once, with its kind, and is never retried.
    pub fn initial_connect(out: ConnectOutcome) -> (r: Result<(), GraphiteError>)
        ensures
            r is Ok <==> out@ is Connected,
            out@ is ConnectFailed ==> r->Err_0@ == (ErrorModel {
                kind: GraphiteErrorKind::Connect,
                msg: out@->ConnectFailed_0,
            }),
            out@ is TuningFailed ==> r->Err_0@ == (ErrorModel {
                kind: GraphiteErrorKind::Tuning,
                msg: out@->TuningFailed_0,
            }),
    {
        match out {
            ConnectOutcome::Connected => Ok(()),
            ConnectOutcome::ConnectFailed(e) => Err(
                GraphiteError { kind: GraphiteErrorKind::Connect, msg: e },
            ),
            ConnectOutcome::TuningFailed(e) => Err(
                GraphiteError { kind: GraphiteErrorKind::Tuning, msg: e },
            ),
        }
    }

    /// Begins a reconnect with the client's retry budget, as
    /// `reconnect_begin_model` describes.
    pub fn reconnect(&self) -> (r: ReconnectStep)
        ensures
            r@ == reconnect_begin_model(self@.retries),
            r@ is Connect ==> r@->Connect_0.wf(),
    {
        if self.retries == 0 {
            ReconnectStep::Failed(GraphiteError::exhaustion_without_attempt())
        } else {
            ReconnectStep::Connect(ReconnectTask { retries: self.retries, failed: 0 })
        }
    }

    /// Begins a send of one record: its wire form is computed once, and
    /// every attempt writes that same payload, as `send_begin_model`
    /// describes.
    pub fn send_message(&self, msg: &GraphiteMessage) -> (r: SendStep)
        ensures
            r@ == send_begin_model(self@.retries, spec_serialize(msg@)),
            r@ is Write ==> r@->Write_0.wf(),
    {
        let payload = msg.serialize();
        self.send_payload(payload)
    }

    /// Begins a send of a whole batch: the payload is the concatenation of
    /// each record's wire form, in the given order, and every attempt writes
    /// that entire payload as one write — a batch is never split across
    /// retries — as `send_begin_model` describes.
    pub fn send_batch_message(&self, msgs: &Vec<GraphiteMessage>) -> (r: SendStep)
        ensures
            r@ == send_begin_model(self@.retries, spec_serialize_batch(msgs@)),
            r@ is Write ==> r@->Write_0.wf(),
    {
        let mut payload = String::new();
        let mut k: usize = 0;
        while k < msgs.len()
            invariant
                k <= msgs.len(),
                payload@ == spec_serialize_batch(msgs@.take(k as int)),
            decreases msgs.len() - k,
        {
            let line = msgs[k].serialize();
            payload.append(line.as_str());
            proof {
                assert(msgs@.take(k as int + 1).drop_last() =~= msgs@.take(k as int));
                assert(msgs@.take(k as int + 1).last() == msgs@[k as int]);
            }
            k = k + 1;
        }
        proof {
            assert(msgs@.take(msgs@.len() as int) =~= msgs@);
        }
        self.send_payload(payload)
    }

    /// Begins a send of an already-computed payload.
    fn send_payload(&self, payload: String) -> (r: SendStep)
        ensures
            r@ == send_begin_model(self@.retries, payload@),
            r@ is Write ==> r@->Write_0.wf(),
    {
        if self.retries == 0 {
            SendStep::Failed(GraphiteError::exhaustion_without_attempt())
        } else {
            SendStep::Write(
                SendTask {
                    retries: self.retries,
                    attempts: 0,
                    payload,
                    last_err: None,
                    phase: SendPhase::Writing,
                },
            )
        }
    }

    /// The endpoint address, as given at construction.
    pub fn address(&self) -> (r: &str)
        ensures
            r@ == self@.address,
    {
        self.address.as_str()
    }

    /// The endpoint port.
    pub fn port(&self) -> (r: u16)
        ensures
            r as int == self@.port,
    {
        self.port
    }

    /// The retry budget of the reconnect and send loops.
    pub fn retries(&self) -> (r: u8)
        ensures
            r as int == self@.retries,
    {
        self.retries
    }

    /// The per-attempt connection timeout, in milliseconds.
    pub fn timeout_ms(&self) -> (r: u64)
        ensures
            r as int == self@.timeout_ms,
    {
        self.timeout_ms
    }

    /// The keep-alive applied to opened connections, in seconds.
    pub fn keep_alive_secs(&self) -> (r: u64)
        ensures
            r as int == self@.keep_alive_secs,
    {
        self.keep_alive_secs
    }
}

} // verus!
