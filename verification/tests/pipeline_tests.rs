use serial_telemetry::fabric::new_fabric;
use serial_telemetry::ingest::IngestEvent;
use serial_telemetry::ingest::IngestState;
use serial_telemetry::registry::lookup_header;
use serial_telemetry::registry::HeaderKind;
use serial_telemetry::registry::StreamId;
use serial_telemetry::window::Measurement;
use serial_telemetry::window::MeasurementWindow;

fn parse_payload_f64(payload: &[u8]) -> Option<f64> {
    std::str::from_utf8(payload).ok()?.trim().parse::<f64>().ok()
}

#[test]
fn registry_routes_known_headers() {
    assert_eq!(
        lookup_header(b"bus_voltage"),
        HeaderKind::Stream(StreamId::BusVoltage)
    );
    assert_eq!(
        lookup_header(b"enc_pos_1"),
        HeaderKind::Stream(StreamId::EncPos1)
    );
    assert_eq!(lookup_header(b"gyr_z"), HeaderKind::Stream(StreamId::GyrZ));
    assert_eq!(lookup_header(b"dbg_msg"), HeaderKind::Debug);
}

#[test]
fn registry_is_exact_and_case_sensitive() {
    assert_eq!(lookup_header(b"Bus_Voltage"), HeaderKind::Unknown);
    assert_eq!(lookup_header(b"bus_voltage "), HeaderKind::Unknown);
    assert_eq!(lookup_header(b"bus_volt"), HeaderKind::Unknown);
    assert_eq!(lookup_header(b""), HeaderKind::Unknown);
}

#[test]
fn stream_slots_are_distinct() {
    let ids = [
        StreamId::BusVoltage,
        StreamId::BusCurrent,
        StreamId::EncPos0,
        StreamId::EncVel0,
        StreamId::EncPos1,
        StreamId::EncVel1,
        StreamId::CtrlU0,
        StreamId::StateX,
        StreamId::StateTheta,
        StreamId::StateXDot,
        StreamId::StateThetaDot,
        StreamId::ImuRoll,
        StreamId::ImuPitch,
        StreamId::ImuPitchDot,
        StreamId::ImuYaw,
        StreamId::AccX,
        StreamId::AccY,
        StreamId::AccZ,
        StreamId::GyrX,
        StreamId::GyrY,
        StreamId::GyrZ,
    ];
    let mut seen = vec![false; ids.len()];
    for id in ids.iter() {
        let slot = id.slot();
        assert!(slot < ids.len());
        assert!(!seen[slot]);
        seen[slot] = true;
    }
}

#[test]
fn two_chunks_split_mid_message() {
    // The stream arrives cut in the middle of the second message; framing,
    // decoding and routing come out as if it had arrived whole.
    let mut ingest = IngestState::new();

    let events = ingest.ingest_chunk(b"bus_voltage:24.0\nbus_vol");
    assert_eq!(events.len(), 1);
    match &events[0] {
        IngestEvent::Telemetry {
            stream,
            index,
            payload,
        } => {
            assert_eq!(*stream, StreamId::BusVoltage);
            assert_eq!(*index, 0);
            assert_eq!(parse_payload_f64(payload), Some(24.0));
        }
        other => panic!("unexpected event {:?}", other),
    }

    let events = ingest.ingest_chunk(b"tage:24.5\n");
    assert_eq!(events.len(), 1);
    match &events[0] {
        IngestEvent::Telemetry {
            stream,
            index,
            payload,
        } => {
            assert_eq!(*stream, StreamId::BusVoltage);
            assert_eq!(*index, 1);
            assert_eq!(parse_payload_f64(payload), Some(24.5));
        }
        other => panic!("unexpected event {:?}", other),
    }

    let mut window = MeasurementWindow::new_with_look_behind(100);
    window.add(Measurement {
        x: 0,
        y: 24.0f64.to_bits(),
    });
    window.add(Measurement {
        x: 1,
        y: 24.5f64.to_bits(),
    });
    let snap = window.snapshot();
    assert_eq!(snap.len(), 2);
    assert_eq!(snap[0].x, 0);
    assert_eq!(f64::from_bits(snap[0].y), 24.0);
    assert_eq!(snap[1].x, 1);
    assert_eq!(f64::from_bits(snap[1].y), 24.5);
}

#[test]
fn message_without_delimiter_routes_nowhere() {
    let mut ingest = IngestState::new();
    let events = ingest.ingest_chunk(b"garbage_no_colon\n");
    assert_eq!(events, Vec::new());
}

#[test]
fn unknown_header_is_dropped() {
    let mut ingest = IngestState::new();
    let events = ingest.ingest_chunk(b"no_such_stream:1.0\n");
    assert_eq!(events, Vec::new());
    // The sample index was not consumed by the dropped record.
    let events = ingest.ingest_chunk(b"bus_voltage:5.0\n");
    assert_eq!(events.len(), 1);
    assert!(matches!(
        &events[0],
        IngestEvent::Telemetry { index: 0, .. }
    ));
}

#[test]
fn debug_records_do_not_consume_indices() {
    let mut ingest = IngestState::new();
    let events = ingest.ingest_chunk(b"bus_voltage:1.0\ndbg_msg:hi there\nbus_current:2.0\n");
    assert_eq!(events.len(), 3);
    assert!(matches!(
        &events[0],
        IngestEvent::Telemetry { stream: StreamId::BusVoltage, index: 0, .. }
    ));
    match &events[1] {
        IngestEvent::DebugText { payload } => assert_eq!(payload, &b"hi there\n".to_vec()),
        other => panic!("unexpected event {:?}", other),
    }
    assert!(matches!(
        &events[2],
        IngestEvent::Telemetry { stream: StreamId::BusCurrent, index: 1, .. }
    ));
}

#[test]
fn partial_tail_waits_for_more_bytes() {
    let mut ingest = IngestState::new();
    let events = ingest.ingest_chunk(b"enc_vel_0:3.25\nenc_vel_0:");
    assert_eq!(events.len(), 1);
    let events = ingest.ingest_chunk(b"4.5");
    assert_eq!(events, Vec::new());
    let events = ingest.ingest_chunk(b"\n");
    assert_eq!(events.len(), 1);
    match &events[0] {
        IngestEvent::Telemetry {
            stream,
            index,
            payload,
        } => {
            assert_eq!(*stream, StreamId::EncVel0);
            assert_eq!(*index, 1);
            assert_eq!(parse_payload_f64(payload), Some(4.5));
        }
        other => panic!("unexpected event {:?}", other),
    }
}

#[test]
fn end_to_end_ingest_publish_consume() {
    let (producer, consumer) = new_fabric(2, 10);
    let mut ingest = IngestState::new();
    let mut window = MeasurementWindow::new_with_look_behind(100);

    for chunk in [&b"bus_voltage:24.0\nbus_vol"[..], &b"tage:24.5\n"[..]] {
        for event in ingest.ingest_chunk(chunk) {
            if let IngestEvent::Telemetry {
                stream,
                index,
                payload,
            } = event
            {
                let value = parse_payload_f64(&payload).unwrap();
                assert!(producer.publish_sample(
                    stream,
                    Measurement {
                        x: index,
                        y: value.to_bits(),
                    }
                ));
            }
        }
        if let Some(sample) = consumer.try_recv_latest(StreamId::BusVoltage) {
            window.add(sample);
        }
    }

    let snap = window.snapshot();
    assert_eq!(snap.len(), 2);
    assert_eq!((snap[0].x, f64::from_bits(snap[0].y)), (0, 24.0));
    assert_eq!((snap[1].x, f64::from_bits(snap[1].y)), (1, 24.5));
}
