use serial_telemetry::commands::truncate_command;
use serial_telemetry::commands::MAX_COMMAND_LEN;
use serial_telemetry::fabric::new_fabric;
use serial_telemetry::fabric::CommandSendError;
use serial_telemetry::registry::StreamId;
use serial_telemetry::window::Measurement;

fn sample(x: i64, y: f64) -> Measurement {
    Measurement { x, y: y.to_bits() }
}

#[test]
fn burst_into_full_queue_drops_new_keeps_queued() {
    // Capacity 2, burst of 5 with no draining: the queue keeps what was
    // already queued and drops the rest, so the consumer observes at most
    // 2 samples from the burst.
    let (producer, consumer) = new_fabric(2, 10);
    let mut accepted = 0;
    for k in 0i64..5 {
        if producer.publish_sample(StreamId::BusVoltage, sample(k, k as f64)) {
            accepted += 1;
        }
    }
    assert_eq!(accepted, 2);
    // The freshest observable sample is the last one the queue took.
    assert_eq!(
        consumer.try_recv_latest(StreamId::BusVoltage),
        Some(sample(1, 1.0))
    );
    assert_eq!(consumer.try_recv_latest(StreamId::BusVoltage), None);
    // Once the consumer drained, the most recently published sample gets
    // through and is observed.
    assert!(producer.publish_sample(StreamId::BusVoltage, sample(5, 5.0)));
    assert_eq!(
        consumer.try_recv_latest(StreamId::BusVoltage),
        Some(sample(5, 5.0))
    );
}

#[test]
fn streams_are_independent_queues() {
    let (producer, consumer) = new_fabric(2, 10);
    assert!(producer.publish_sample(StreamId::AccX, sample(0, 1.0)));
    assert!(producer.publish_sample(StreamId::AccY, sample(0, 2.0)));
    assert_eq!(
        consumer.try_recv_latest(StreamId::AccY),
        Some(sample(0, 2.0))
    );
    assert_eq!(
        consumer.try_recv_latest(StreamId::AccX),
        Some(sample(0, 1.0))
    );
    assert_eq!(consumer.try_recv_latest(StreamId::AccZ), None);
}

#[test]
fn empty_queue_is_no_update() {
    let (_producer, consumer) = new_fabric(2, 10);
    assert_eq!(consumer.try_recv_latest(StreamId::GyrX), None);
    assert_eq!(consumer.try_recv_debug(), None);
}

#[test]
fn debug_texts_arrive_in_order() {
    let (producer, consumer) = new_fabric(4, 10);
    assert!(producer.publish_debug("first".to_string()));
    assert!(producer.publish_debug("second".to_string()));
    assert_eq!(consumer.try_recv_debug(), Some("first".to_string()));
    assert_eq!(consumer.try_recv_debug(), Some("second".to_string()));
    assert_eq!(consumer.try_recv_debug(), None);
}

#[test]
fn commands_flow_back_to_producer() {
    let (producer, consumer) = new_fabric(2, 10);
    assert_eq!(producer.try_recv_command(), None);
    assert!(consumer.send_command("calib_rtn".to_string()).is_ok());
    assert!(consumer.send_command_blocking("idle_ctrl".to_string()).is_ok());
    assert_eq!(producer.try_recv_command(), Some("calib_rtn".to_string()));
    assert_eq!(producer.try_recv_command(), Some("idle_ctrl".to_string()));
    assert_eq!(producer.try_recv_command(), None);
}

#[test]
fn full_command_queue_rejects_and_returns_command() {
    let (producer, consumer) = new_fabric(2, 2);
    assert!(consumer.send_command("a".to_string()).is_ok());
    assert!(consumer.send_command("b".to_string()).is_ok());
    assert_eq!(
        consumer.send_command("c".to_string()),
        Err(CommandSendError::Full("c".to_string()))
    );
    // The queued commands were not displaced by the rejected one.
    assert_eq!(producer.try_recv_command(), Some("a".to_string()));
    assert_eq!(producer.try_recv_command(), Some("b".to_string()));
}

#[test]
fn closed_command_queue_reports_closed() {
    let (producer, consumer) = new_fabric(2, 2);
    drop(producer);
    assert_eq!(
        consumer.send_command("x".to_string()),
        Err(CommandSendError::Closed("x".to_string()))
    );
    assert_eq!(
        consumer.send_command_blocking("y".to_string()),
        Err(CommandSendError::Closed("y".to_string()))
    );
}

#[test]
fn truncate_command_cuts_to_budget() {
    assert_eq!(truncate_command("sp:1.2345", MAX_COMMAND_LEN), "sp:1.2345");
    assert_eq!(truncate_command("sp:12.3456", MAX_COMMAND_LEN), "sp:12.345");
    assert_eq!(truncate_command("sp:0.5", MAX_COMMAND_LEN), "sp:0.5");
    assert_eq!(truncate_command("", MAX_COMMAND_LEN), "");
    assert_eq!(truncate_command("abcdef", 0), "");
}

#[test]
fn truncate_command_truncates_not_rounds() {
    let formatted = format!("sp:{:.4}", -1.23456f64);
    assert_eq!(formatted, "sp:-1.2346");
    assert_eq!(truncate_command(&formatted, MAX_COMMAND_LEN), "sp:-1.234");
}
