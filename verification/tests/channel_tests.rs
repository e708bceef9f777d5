use to_rust_a_gauge::channel::{GaugeEventChannel, MainEventChannel, CHANNEL_CAPACITY};
use to_rust_a_gauge::data_point::{DataPoint, Datum};
use to_rust_a_gauge::errors::{
    ToRustAGaugeError, ToRustAGaugeErrorSeverity, ToRustAGaugeErrorWithSeverity,
};
use to_rust_a_gauge::gauge::ToGaugeEvents;
use to_rust_a_gauge::supervisor::ToMainEvents;

fn sample(rpm: u32, time_ms: u64) -> ToGaugeEvents {
    ToGaugeEvents::NewData(DataPoint {
        data: Datum::RPM(rpm),
        time_ms,
    })
}

#[test]
fn send_then_receive_returns_the_event() {
    let mut ch = GaugeEventChannel::new();
    assert_eq!(ch.len(), 0);
    assert!(ch.try_send(ToGaugeEvents::IsBackLightOn(true)).is_ok());
    assert_eq!(ch.len(), 1);
    assert_eq!(ch.try_receive(), Some(ToGaugeEvents::IsBackLightOn(true)));
    assert_eq!(ch.try_receive(), None);
}

#[test]
fn full_channel_pushes_back_and_drops_nothing() {
    let mut ch = GaugeEventChannel::new();
    for k in 0..CHANNEL_CAPACITY {
        assert!(ch.try_send(sample(k as u32, k as u64)).is_ok());
    }
    // The eleventh send finds the channel full: the producer would suspend,
    // and the very same event comes back instead of being dropped.
    let extra = sample(999, 99);
    assert_eq!(ch.try_send(extra), Err(extra));
    assert_eq!(ch.len(), CHANNEL_CAPACITY);
    // One slot drains; the suspended producer's retry now succeeds.
    assert_eq!(ch.try_receive(), Some(sample(0, 0)));
    assert!(ch.try_send(extra).is_ok());
    // Every event survives, still in order.
    let drained = ch.drain();
    assert_eq!(drained.len(), CHANNEL_CAPACITY);
    for k in 1..CHANNEL_CAPACITY {
        assert_eq!(drained[k - 1], sample(k as u32, k as u64));
    }
    assert_eq!(drained[CHANNEL_CAPACITY - 1], extra);
}

#[test]
fn events_come_out_in_the_order_they_were_sent() {
    let mut ch = GaugeEventChannel::new();
    let events = vec![
        sample(100, 0),
        ToGaugeEvents::IsBackLightOn(true),
        sample(200, 1),
        ToGaugeEvents::IsBackLightOn(false),
        sample(300, 2),
    ];
    assert_eq!(ch.send_all(&events), events.len());
    assert_eq!(ch.drain(), events);
}

#[test]
fn interleaved_producers_keep_per_channel_arrival_order() {
    // Two producers alternating on one channel: the single consumer sees the
    // events exactly in arrival order.
    let mut ch = GaugeEventChannel::new();
    let from_parser = [sample(10, 0), sample(20, 2), sample(30, 4)];
    let from_sensor = [
        ToGaugeEvents::IsBackLightOn(true),
        ToGaugeEvents::IsBackLightOn(false),
        ToGaugeEvents::IsBackLightOn(true),
    ];
    for k in 0..3 {
        assert!(ch.try_send(from_parser[k]).is_ok());
        assert!(ch.try_send(from_sensor[k]).is_ok());
    }
    for k in 0..3 {
        assert_eq!(ch.try_receive(), Some(from_parser[k]));
        assert_eq!(ch.try_receive(), Some(from_sensor[k]));
    }
}

#[test]
fn send_all_accepts_exactly_the_prefix_that_fits() {
    let mut ch = GaugeEventChannel::new();
    let first: Vec<ToGaugeEvents> = (0..7).map(|k| sample(k, k as u64)).collect();
    assert_eq!(ch.send_all(&first), 7);
    let second: Vec<ToGaugeEvents> = (7..12).map(|k| sample(k, k as u64)).collect();
    // Only three free slots are left of the capacity of ten.
    assert_eq!(ch.send_all(&second), 3);
    let drained = ch.drain();
    assert_eq!(drained.len(), CHANNEL_CAPACITY);
    for k in 0..CHANNEL_CAPACITY {
        assert_eq!(drained[k], sample(k as u32, k as u64));
    }
}

#[test]
fn supervisor_channel_is_fifo_and_bounded() {
    let mut ch = MainEventChannel::new();
    let err = ToMainEvents::GaugeError(ToRustAGaugeErrorWithSeverity::from_with_severity(
        ToRustAGaugeError::UartTimeoutError,
        ToRustAGaugeErrorSeverity::BadIfReoccurring,
    ));
    assert!(ch.try_send(ToMainEvents::GaugeInitComplete).is_ok());
    assert!(ch.try_send(err).is_ok());
    for _ in 0..(CHANNEL_CAPACITY - 2) {
        assert!(ch.try_send(ToMainEvents::LcdInitComplete).is_ok());
    }
    assert_eq!(
        ch.try_send(ToMainEvents::ElmInitComplete),
        Err(ToMainEvents::ElmInitComplete)
    );
    assert_eq!(ch.try_receive(), Some(ToMainEvents::GaugeInitComplete));
    assert_eq!(ch.try_receive(), Some(err));
}
