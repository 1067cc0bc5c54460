// The reconnect and send-with-retry protocols, driven step by step.

use graphyne::ConnectOutcome;
use graphyne::GraphiteClient;
use graphyne::GraphiteErrorKind;
use graphyne::GraphiteMessage;
use graphyne::ReconnectStep;
use graphyne::SendStep;
use graphyne::WriteOutcome;

fn client_with_retries(retries: u8) -> GraphiteClient {
    GraphiteClient::new("127.0.0.1", 2003, Some(retries), None, None).unwrap()
}

#[test]
fn test_send_success_first_write() {
    let client = client_with_retries(3);
    let msg = GraphiteMessage::with_timestamp("cpu.usage", "45.2", 9);
    let expected_len = msg.serialize().len();
    match client.send_message(&msg) {
        SendStep::Write(task) => match task.on_write_outcome(WriteOutcome::Written) {
            SendStep::Sent(n) => assert_eq!(n, expected_len),
            _ => panic!("an accepted write must end the send in success"),
        },
        _ => panic!("a send with a nonzero budget must begin with a write"),
    }
}

#[test]
fn test_sent_counts_bytes_of_utf8_encoding() {
    let client = client_with_retries(3);
    let msg = GraphiteMessage::with_timestamp("t", "\u{e9}", 1);
    let line = msg.serialize();
    assert_eq!(line.chars().count(), 6);
    assert_eq!(line.len(), 7);
    match client.send_message(&msg) {
        SendStep::Write(task) => match task.on_write_outcome(WriteOutcome::Written) {
            SendStep::Sent(n) => assert_eq!(n, 7),
            _ => panic!("an accepted write must end the send in success"),
        },
        _ => panic!("send must begin with a write"),
    }
}

#[test]
fn test_send_recovery_after_reconnect() {
    let client = client_with_retries(3);
    let msg = GraphiteMessage::with_timestamp("app.requests", "100", 1);
    let expected_len = msg.serialize().len();
    let step = client.send_message(&msg);
    let task = match step {
        SendStep::Write(t) => t,
        _ => panic!("send must begin with a write"),
    };
    let step = task.on_write_outcome(WriteOutcome::WriteFailed("broken pipe".to_string()));
    let task = match step {
        SendStep::Connect(t) => t,
        _ => panic!("a failed write must be answered with a reconnect"),
    };
    let step = task.on_connect_outcome(ConnectOutcome::Connected);
    let task = match step {
        SendStep::Write(t) => t,
        _ => panic!("a successful reconnect must retry the write"),
    };
    match task.on_write_outcome(WriteOutcome::Written) {
        SendStep::Sent(n) => assert_eq!(n, expected_len),
        _ => panic!("the retried write must end the send in success"),
    }
}

#[test]
fn test_send_retry_bound_and_last_error() {
    let retries = 3;
    let client = client_with_retries(retries);
    let msg = GraphiteMessage::with_timestamp("m", "1", 0);
    let mut writes = 0;
    let mut connects = 0;
    let mut step = client.send_message(&msg);
    let err = loop {
        step = match step {
            SendStep::Write(task) => {
                writes += 1;
                let e = format!("write failure {writes}");
                task.on_write_outcome(WriteOutcome::WriteFailed(e))
            }
            SendStep::Connect(task) => {
                connects += 1;
                task.on_connect_outcome(ConnectOutcome::Connected)
            }
            SendStep::Sent(_) => panic!("no write ever succeeds here"),
            SendStep::Failed(e) => break e,
        };
    };
    assert_eq!(writes, retries as usize);
    assert_eq!(connects, retries as usize);
    assert_eq!(err.kind, GraphiteErrorKind::Exhausted);
    assert_eq!(err.msg, "Graphite Error: write failure 3");
}

#[test]
fn test_send_reconnect_exhaustion_aborts_send() {
    let client = client_with_retries(2);
    let msg = GraphiteMessage::with_timestamp("m", "1", 0);
    let step = client.send_message(&msg);
    let task = match step {
        SendStep::Write(t) => t,
        _ => panic!("send must begin with a write"),
    };
    let step = task.on_write_outcome(WriteOutcome::WriteFailed("broken pipe".to_string()));
    let task = match step {
        SendStep::Connect(t) => t,
        _ => panic!("a failed write must be answered with a reconnect"),
    };
    let step = task.on_connect_outcome(ConnectOutcome::ConnectFailed("refused 1".to_string()));
    let task = match step {
        SendStep::Connect(t) => t,
        _ => panic!("a failed connect within budget must be retried"),
    };
    match task.on_connect_outcome(ConnectOutcome::ConnectFailed("refused 2".to_string())) {
        SendStep::Failed(e) => {
            assert_eq!(e.kind, GraphiteErrorKind::Exhausted);
            assert_eq!(e.msg, "Graphite Error: refused 2");
        }
        _ => panic!("an exhausted reconnect must abort the send"),
    }
}

#[test]
fn test_send_tuning_failure_aborts_at_once() {
    let client = client_with_retries(5);
    let msg = GraphiteMessage::with_timestamp("m", "1", 0);
    let task = match client.send_message(&msg) {
        SendStep::Write(t) => t,
        _ => panic!("send must begin with a write"),
    };
    let task = match task.on_write_outcome(WriteOutcome::WriteFailed("broken".to_string())) {
        SendStep::Connect(t) => t,
        _ => panic!("a failed write must be answered with a reconnect"),
    };
    match task.on_connect_outcome(ConnectOutcome::TuningFailed("permission denied".to_string()))
    {
        SendStep::Failed(e) => {
            assert_eq!(e.kind, GraphiteErrorKind::Tuning);
            assert_eq!(e.msg, "permission denied");
        }
        _ => panic!("a tuning failure must abort the send at once"),
    }
}

#[test]
fn test_send_zero_budget_fails_without_attempt() {
    let client = client_with_retries(0);
    let msg = GraphiteMessage::with_timestamp("m", "1", 0);
    match client.send_message(&msg) {
        SendStep::Failed(e) => assert_eq!(e.kind, GraphiteErrorKind::Exhausted),
        _ => panic!("a zero budget allows no attempt"),
    }
}

#[test]
fn test_batch_atomicity_under_retry() {
    let client = client_with_retries(3);
    let msgs = vec![
        GraphiteMessage::with_timestamp("a", "1", 1),
        GraphiteMessage::with_timestamp("b", "2", 2),
        GraphiteMessage::with_timestamp("c", "3", 3),
    ];
    let expected = "a 1 1\nb 2 2\nc 3 3\n";
    let task = match client.send_batch_message(&msgs) {
        SendStep::Write(t) => t,
        _ => panic!("send must begin with a write"),
    };
    assert_eq!(task.payload(), expected, "the failing attempt writes the whole batch");
    let task = match task.on_write_outcome(WriteOutcome::WriteFailed("broken".to_string())) {
        SendStep::Connect(t) => t,
        _ => panic!("a failed write must be answered with a reconnect"),
    };
    let task = match task.on_connect_outcome(ConnectOutcome::Connected) {
        SendStep::Write(t) => t,
        _ => panic!("a successful reconnect must retry the write"),
    };
    assert_eq!(task.payload(), expected, "the retried attempt writes the whole batch again");
    match task.on_write_outcome(WriteOutcome::Written) {
        SendStep::Sent(n) => assert_eq!(n, expected.len()),
        _ => panic!("the retried write must end the send in success"),
    }
}

#[test]
fn test_each_failed_write_gets_a_fresh_reconnect_budget() {
    let client = client_with_retries(2);
    let msg = GraphiteMessage::with_timestamp("m", "1", 0);
    let task = match client.send_message(&msg) {
        SendStep::Write(t) => t,
        _ => panic!("send must begin with a write"),
    };
    let task = match task.on_write_outcome(WriteOutcome::WriteFailed("w1".to_string())) {
        SendStep::Connect(t) => t,
        _ => panic!("a failed write must be answered with a reconnect"),
    };
    let task = match task.on_connect_outcome(ConnectOutcome::ConnectFailed("c1".to_string())) {
        SendStep::Connect(t) => t,
        _ => panic!("the first reconnect has one more attempt in its budget"),
    };
    let task = match task.on_connect_outcome(ConnectOutcome::Connected) {
        SendStep::Write(t) => t,
        _ => panic!("a successful reconnect must retry the write"),
    };
    let task = match task.on_write_outcome(WriteOutcome::WriteFailed("w2".to_string())) {
        SendStep::Connect(t) => t,
        _ => panic!("the second failed write starts a new reconnect"),
    };
    let task = match task.on_connect_outcome(ConnectOutcome::ConnectFailed("c2".to_string())) {
        SendStep::Connect(t) => t,
        _ => panic!("the second reconnect has its own full budget again"),
    };
    match task.on_connect_outcome(ConnectOutcome::Connected) {
        SendStep::Failed(e) => {
            assert_eq!(e.kind, GraphiteErrorKind::Exhausted);
            assert_eq!(e.msg, "Graphite Error: w2");
        }
        _ => panic!("the write budget is now spent"),
    }
}

#[test]
fn test_reconnect_still_runs_after_final_failed_write() {
    let client = client_with_retries(1);
    let msg = GraphiteMessage::with_timestamp("m", "1", 0);
    let task = match client.send_message(&msg) {
        SendStep::Write(t) => t,
        _ => panic!("send must begin with a write"),
    };
    let task = match task.on_write_outcome(WriteOutcome::WriteFailed("broken".to_string())) {
        SendStep::Connect(t) => t,
        _ => panic!("even the final failed write is answered with a reconnect"),
    };
    match task.on_connect_outcome(ConnectOutcome::Connected) {
        SendStep::Failed(e) => {
            assert_eq!(e.kind, GraphiteErrorKind::Exhausted);
            assert_eq!(e.msg, "Graphite Error: broken");
        }
        _ => panic!("with a budget of one the send is exhausted after one write"),
    }
}

#[test]
fn test_reconnect_success_replaces_handle() {
    let client = client_with_retries(3);
    let task = match client.reconnect() {
        ReconnectStep::Connect(t) => t,
        _ => panic!("a reconnect with a nonzero budget must attempt a connection"),
    };
    match task.on_connect_outcome(ConnectOutcome::Connected) {
        ReconnectStep::Replaced => {}
        _ => panic!("a successful connection must replace the handle"),
    }
}

#[test]
fn test_reconnect_exhaustion_reports_last_error() {
    let client = client_with_retries(2);
    let task = match client.reconnect() {
        ReconnectStep::Connect(t) => t,
        _ => panic!("a reconnect with a nonzero budget must attempt a connection"),
    };
    let task = match task.on_connect_outcome(ConnectOutcome::ConnectFailed(
        "first refusal".to_string(),
    )) {
        ReconnectStep::Connect(t) => t,
        _ => panic!("a failed connect within budget must be retried"),
    };
    match task.on_connect_outcome(ConnectOutcome::ConnectFailed("second refusal".to_string())) {
        ReconnectStep::Failed(e) => {
            assert_eq!(e.kind, GraphiteErrorKind::Exhausted);
            assert_eq!(e.msg, "Graphite Error: second refusal");
        }
        _ => panic!("the second failure exhausts a budget of two"),
    }
}

#[test]
fn test_reconnect_tuning_failure_is_not_retried() {
    let client = client_with_retries(5);
    let task = match client.reconnect() {
        ReconnectStep::Connect(t) => t,
        _ => panic!("a reconnect with a nonzero budget must attempt a connection"),
    };
    match task.on_connect_outcome(ConnectOutcome::TuningFailed("option rejected".to_string())) {
        ReconnectStep::Failed(e) => {
            assert_eq!(e.kind, GraphiteErrorKind::Tuning);
            assert_eq!(e.msg, "option rejected");
        }
        _ => panic!("a tuning failure must end the reconnect at once"),
    }
}

#[test]
fn test_initial_connect_decides_construction() {
    assert!(GraphiteClient::initial_connect(ConnectOutcome::Connected).is_ok());
    match GraphiteClient::initial_connect(ConnectOutcome::ConnectFailed(
        "connection timed out".to_string(),
    )) {
        Err(e) => {
            assert_eq!(e.kind, GraphiteErrorKind::Connect);
            assert_eq!(e.msg, "connection timed out");
        }
        Ok(()) => panic!("a failed initial connection must fail construction"),
    }
    match GraphiteClient::initial_connect(ConnectOutcome::TuningFailed("bad option".to_string()))
    {
        Err(e) => assert_eq!(e.kind, GraphiteErrorKind::Tuning),
        Ok(()) => panic!("a tuning failure at construction must fail construction"),
    }
}

#[test]
fn test_error_description() {
    let client = client_with_retries(0);
    match client.reconnect() {
        ReconnectStep::Failed(e) => {
            assert_eq!(e.description(), "Graphite Error: no attempt was made");
        }
        _ => panic!("a zero budget allows no attempt"),
    }
}
