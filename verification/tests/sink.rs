use nyx::clock::Clock;
use nyx::sampler::Sampler;
use nyx::sink::Callback;
use nyx::sink::Forward;
use nyx::sink::Sink;
use nyx::Bps;
use nyx::Interval;
use std::sync::mpsc::channel;

const SECOND: u128 = 1_000_000_000;

#[test]
fn a_vector_keeps_the_rates_in_order() {
    let mut sink: Vec<Bps> = Vec::new();
    sink.on_rate(Bps(3));
    sink.on_rate(Bps(1));
    sink.on_rate(Bps(2));
    assert_eq!(sink, vec![Bps(3), Bps(1), Bps(2)]);
}

#[test]
fn a_callback_is_called_once_with_every_rate() {
    let mut seen: Vec<u64> = Vec::new();
    {
        let mut sink = Callback::new(|rate: Bps| seen.push(rate.0));
        sink.on_rate(Bps(10));
        sink.on_rate(Bps(20));
    }
    assert_eq!(seen, vec![10, 20]);
}

#[test]
fn a_forwarding_sink_sends_every_rate_through_the_channel() {
    let (sender, receiver) = channel();
    let mut sink = Forward::new(sender);
    sink.on_rate(Bps(5));
    sink.on_rate(Bps(6));
    assert_eq!(receiver.try_recv(), Ok(Bps(5)));
    assert_eq!(receiver.try_recv(), Ok(Bps(6)));
    assert!(receiver.try_recv().is_err());
}

#[test]
fn a_forwarding_sink_ignores_a_receiver_that_is_gone() {
    let (sender, receiver) = channel();
    drop(receiver);
    let mut sink = Forward::new(sender);
    sink.on_rate(Bps(5));
    sink.on_rate(Bps(6));
}

#[test]
fn sample_at_hands_the_rate_to_the_sink_once() {
    let mut sampler = Sampler::new(Interval::from_secs(1), 0);
    let mut sink: Vec<Bps> = Vec::new();
    nyx::sample_at(100, 1, &mut sampler, &mut sink);
    nyx::sample_at(200, 2, &mut sampler, &mut sink);
    assert!(sink.is_empty());
    assert_eq!(sampler.accumulated, 300);
    nyx::sample_at(700, 2 * SECOND, &mut sampler, &mut sink);
    assert_eq!(sink, vec![Bps(500)]);
    assert_eq!(sampler.accumulated, 0);
    assert_eq!(sampler.window_start, 2 * SECOND);
    nyx::sample_at(0, 2 * SECOND + 5, &mut sampler, &mut sink);
    nyx::sample_at(0, 3 * SECOND - 1, &mut sampler, &mut sink);
    assert_eq!(sink, vec![Bps(500)]);
    nyx::sample_at(9, 3 * SECOND, &mut sampler, &mut sink);
    assert_eq!(sink, vec![Bps(500), Bps(9)]);
}

#[test]
fn sample_at_calls_a_callback_once_per_report() {
    let mut calls: u32 = 0;
    {
        let mut sampler = Sampler::new(Interval { nanos: 10 }, 0);
        let mut sink = Callback::new(|_rate: Bps| calls += 1);
        for now in 1..=100u128 {
            nyx::sample_at(1, now, &mut sampler, &mut sink);
        }
    }
    assert_eq!(calls, 10);
}

fn wait_for_the_clock(clock: &Clock, nanos: u128) {
    let start = clock.now();
    while clock.now() < start + nanos {
        std::hint::spin_loop();
    }
}

#[test]
fn the_clock_does_not_run_backwards() {
    let clock = Clock::start();
    let mut last = clock.now();
    for _ in 0..10_000 {
        let now = clock.now();
        assert!(now >= last);
        last = now;
    }
    wait_for_the_clock(&clock, 2_000_000);
    assert!(clock.now() >= last + 2_000_000);
    assert!(clock.now() < 20 * SECOND);
}

#[test]
fn bytes_per_second_waits_for_the_window() {
    let clock = Clock::start();
    let mut sampler = Sampler::new(Interval::from_secs(3600), 0);
    let mut sink: Vec<Bps> = Vec::new();
    for _ in 0..1000 {
        nyx::bytes_per_second(4, &mut sampler, &clock, &mut sink);
    }
    assert!(sink.is_empty());
    assert_eq!(sampler.accumulated, 4000);
    assert_eq!(sampler.window_start, 0);
}

#[test]
fn bytes_per_second_reports_once_the_window_has_passed() {
    let clock = Clock::start();
    let mut sampler = Sampler::new(Interval::from_millis(2), 0);
    let mut sink: Vec<Bps> = Vec::new();
    nyx::bytes_per_second(1000, &mut sampler, &clock, &mut sink);
    let before = sampler;
    let told = sink.len();
    wait_for_the_clock(&clock, 2_000_000);
    nyx::bytes_per_second(1000, &mut sampler, &clock, &mut sink);
    assert_eq!(sink.len(), told + 1);
    assert_eq!(sampler.accumulated, 0);
    assert!(sampler.window_start >= before.window_start + 2_000_000);
    // The bytes of the window over the time that it took, which is no less
    // than two milliseconds.
    let bytes = before.accumulated as u128 + 1000;
    let elapsed = sampler.window_start - before.window_start;
    assert_eq!(sink[told], Bps((bytes * SECOND / elapsed) as u64));
    assert!(sink[told] <= Bps(1_000_000));
}
