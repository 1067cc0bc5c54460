//! The delivery protocol's guarantees, stated and proved over the step
//! models: the retry bound, recovery after a reconnect, batch atomicity, and
//! last-error reporting.

use vstd::prelude::*;
use vstd::utf8::encode_utf8;

use crate::client::ConnectOutcomeModel;
use crate::client::SendModel;
use crate::client::SendStepModel;
use crate::client::WriteOutcomeModel;
use crate::client::send_begin_model;
use crate::client::send_connect_step_model;
use crate::client::send_write_step_model;
use crate::errors::ErrorModel;
use crate::errors::GraphiteErrorKind;
use crate::errors::exhaustion_model;
use crate::errors::exhaustion_prefix;
use crate::message::GraphiteMessage;
use crate::message::spec_serialize_batch;

verus! {

/// Runs a send against a connection whose every write fails — the attempts
/// failing with `errs` in order — and whose every reconnect succeeds at the
/// first connection attempt. Yields how many write actions and how many
/// connect actions the send requested, and the step it ended on.
pub open spec fn run_failing_writes(m: SendModel, errs: Seq<Seq<char>>) -> (int, int, SendStepModel)
    decreases errs.len(),
{
    if errs.len() == 0 {
        (0, 0, SendStepModel::Write(m))
    } else {
        match send_write_step_model(m, WriteOutcomeModel::WriteFailed(errs[0])) {
            SendStepModel::Connect(m1) => match send_connect_step_model(
                m1,
                ConnectOutcomeModel::Connected,
            ) {
                SendStepModel::Write(m2) => {
                    let rest = run_failing_writes(m2, errs.drop_first());
                    (rest.0 + 1, rest.1 + 1, rest.2)
                },
                step => (1, 1, step),
            },
            step => (1, 0, step),
        }
    }
}

/// From any mid-send point about to write, with as many failures left as
/// the budget still allows write attempts, the run performs exactly that
/// many write and connect actions and ends exhausted with the last failure.
proof fn lemma_run_failing_writes(m: SendModel, errs: Seq<Seq<char>>)
    requires
        m.wf(),
        m.phase is Writing,
        errs.len() == m.retries - m.attempts,
    ensures
        run_failing_writes(m, errs) == (
            m.retries - m.attempts,
            m.retries - m.attempts,
            SendStepModel::Failed(exhaustion_model(errs.last())),
        ),
    decreases errs.len(),
{
    let after_write = send_write_step_model(m, WriteOutcomeModel::WriteFailed(errs[0]));
    let m1 = after_write->Connect_0;
    let after_connect = send_connect_step_model(m1, ConnectOutcomeModel::Connected);
    if m.attempts + 1 < m.retries {
        let m2 = after_connect->Write_0;
        lemma_run_failing_writes(m2, errs.drop_first());
        assert(errs.drop_first().last() == errs.last());
    } else {
        assert(errs.last() == errs[0]);
    }
}

/// Retry bound: against a connection whose writes always fail and whose
/// reconnects succeed, a send with budget `retries` performs exactly
/// `retries` write attempts and `retries` reconnect attempts, then returns
/// the terminal exhaustion error.
pub proof fn lemma_send_retry_bound(retries: int, payload: Seq<char>, errs: Seq<Seq<char>>)
    requires
        1 <= retries <= 255,
        errs.len() == retries,
    ensures
        send_begin_model(retries, payload) is Write,
        run_failing_writes(send_begin_model(retries, payload)->Write_0, errs) == (
            retries,
            retries,
            SendStepModel::Failed(exhaustion_model(errs.last())),
        ),
{
    lemma_run_failing_writes(send_begin_model(retries, payload)->Write_0, errs);
}

/// Exhaustion reports the most recent failure: the terminal error of a send
/// whose every write failed describes the last underlying write failure
/// observed, not the first.
pub proof fn lemma_exhaustion_reports_last_error(
    retries: int,
    payload: Seq<char>,
    errs: Seq<Seq<char>>,
)
    requires
        1 <= retries <= 255,
        errs.len() == retries,
    ensures
        run_failing_writes(send_begin_model(retries, payload)->Write_0, errs).2
            == SendStepModel::Failed(
            ErrorModel {
                kind: GraphiteErrorKind::Exhausted,
                msg: exhaustion_prefix() + errs.last(),
            },
        ),
{
    lemma_send_retry_bound(retries, payload, errs);
}

/// Recovery: when the first write fails, the reconnect succeeds, and the
/// retried write succeeds, the send ends in success and reports the whole
/// payload's length as the bytes written.
pub proof fn lemma_send_recovery(retries: int, payload: Seq<char>, e: Seq<char>)
    requires
        2 <= retries <= 255,
    ensures
        ({
            let begin = send_begin_model(retries, payload);
            let after_fail = send_write_step_model(
                begin->Write_0,
                WriteOutcomeModel::WriteFailed(e),
            );
            let after_reconnect = send_connect_step_model(
                after_fail->Connect_0,
                ConnectOutcomeModel::Connected,
            );
            &&& begin is Write
            &&& after_fail is Connect
            &&& after_reconnect is Write
            &&& send_write_step_model(after_reconnect->Write_0, WriteOutcomeModel::Written)
                == SendStepModel::Sent(encode_utf8(payload).len() as int)
        }),
{
}

/// Batch atomicity: a batch's payload is the concatenation of its records'
/// wire lines in order, and when the first write fails and the retried
/// write succeeds, each of the two write attempts carries that entire
/// payload — a batch is never split across retries — and the send reports
/// the full payload's byte length as the bytes written.
pub proof fn lemma_batch_atomicity(retries: int, msgs: Seq<GraphiteMessage>, e: Seq<char>)
    requires
        2 <= retries <= 255,
    ensures
        ({
            let payload = spec_serialize_batch(msgs);
            let begin = send_begin_model(retries, payload);
            let after_fail = send_write_step_model(
                begin->Write_0,
                WriteOutcomeModel::WriteFailed(e),
            );
            let after_reconnect = send_connect_step_model(
                after_fail->Connect_0,
                ConnectOutcomeModel::Connected,
            );
            &&& begin is Write
            &&& begin->Write_0.payload == payload
            &&& after_fail is Connect
            &&& after_fail->Connect_0.payload == payload
            &&& after_reconnect is Write
            &&& after_reconnect->Write_0.payload == payload
            &&& send_write_step_model(after_reconnect->Write_0, WriteOutcomeModel::Written)
                == SendStepModel::Sent(encode_utf8(payload).len() as int)
        }),
{
}

/// No step of a send ever changes the payload: whatever the outcomes, every
/// write attempt carries the payload computed when the send began.
pub proof fn lemma_payload_never_changes(
    m: SendModel,
    wout: WriteOutcomeModel,
    cout: ConnectOutcomeModel,
)
    ensures
        send_write_step_model(m, wout) is Connect ==> send_write_step_model(
            m,
            wout,
        )->Connect_0.payload == m.payload,
        send_connect_step_model(m, cout) is Write ==> send_connect_step_model(
            m,
            cout,
        )->Write_0.payload == m.payload,
        send_connect_step_model(m, cout) is Connect ==> send_connect_step_model(
            m,
            cout,
        )->Connect_0.payload == m.payload,
{
}

} // verus!
