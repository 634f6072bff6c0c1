use esp_now_blinky::MacAddress;
use esp_now_blinky::broadcast::{BROADCAST_INTERVAL_MS, Broadcaster, broadcast_payload};
use esp_now_blinky::led::{Led, LedCommand};
use esp_now_blinky::lock::RadioGuard;
use esp_now_blinky::radio::{Frame, RadioError, broadcast_address};
use esp_now_blinky::scheduler::Scheduler;
use smart_leds::hsv::{Hsv, hsv2rgb};

#[test]
fn broadcast_fires_on_the_simulated_clock() {
    // one interval with no inbound traffic: exactly one broadcast
    let mut b = Broadcaster::new(0);
    let fired = b.poll(5000).expect("deadline reached");
    assert!(fired.dest.is_broadcast());
    assert_eq!(fired.payload, b"0123456789".to_vec());
    // a further 4.9 seconds: none
    assert!(b.poll(9900).is_none());
    // 0.1 seconds more: the next one
    assert!(b.poll(10000).is_some());
}

#[test]
fn broadcast_does_not_fire_early_and_never_queues() {
    let mut b = Broadcaster::new(0);
    assert!(b.poll(0).is_none());
    assert!(b.poll(4999).is_none());
    // a very late pass fires once, not once per missed interval
    let mut late = Broadcaster::new(0);
    assert!(late.poll(50_000).is_some());
    assert!(late.poll(50_001).is_none());
}

#[test]
fn broadcast_interval_is_five_seconds() {
    assert_eq!(BROADCAST_INTERVAL_MS, 5000);
    assert_eq!(broadcast_payload(), b"0123456789".to_vec());
}

#[test]
fn gpio_led_follows_brightness() {
    let mut led = Led::new_gpio();
    assert_eq!(led.cycle_color(50), LedCommand::SetLevel(true));
    assert_eq!(led.cycle_color(0), LedCommand::SetLevel(false));
    assert_eq!(led.set_color(1), LedCommand::SetLevel(true));
}

#[test]
fn ws2812_led_matches_hsv_conversion_and_steps_hue() {
    let mut led = Led::new_ws2812();
    let first = led.cycle_color(50);
    let rgb0 = hsv2rgb(Hsv { hue: 0, sat: 255, val: 50 });
    assert_eq!(first, LedCommand::ShowRgb(rgb0.r, rgb0.g, rgb0.b));

    // dark phase: black, and the hue does not advance
    assert_eq!(led.cycle_color(0), LedCommand::ShowRgb(0, 0, 0));

    // next lit phase uses the stepped hue
    let second = led.cycle_color(50);
    let rgb15 = hsv2rgb(Hsv { hue: 15, sat: 255, val: 50 });
    assert_eq!(second, LedCommand::ShowRgb(rgb15.r, rgb15.g, rgb15.b));
    assert_ne!(first, second, "the colour cycles from step to step");
}

#[test]
fn ws2812_hue_wraps_around() {
    let mut led = Led::new_ws2812();
    // 17 lit steps of 15 pass 255 and wrap: 17 * 15 = 255, so the 18th
    // lit advance starts again close to the beginning of the wheel
    for _ in 0..17 {
        led.cycle_color(50);
    }
    let wrapped = led.cycle_color(50);
    let rgb = hsv2rgb(Hsv { hue: 255, sat: 255, val: 50 });
    assert_eq!(wrapped, LedCommand::ShowRgb(rgb.r, rgb.g, rgb.b));
}

#[test]
fn guard_admits_one_activity_at_a_time() {
    let mut guard = RadioGuard::new();
    assert!(guard.try_acquire());
    assert!(!guard.try_acquire(), "the counter never exceeds one");
    guard.release();
    assert!(guard.try_acquire());
}

#[test]
fn scheduler_rejects_an_invalid_channel() {
    assert!(matches!(
        Scheduler::new(Led::new_gpio(), 0, 0, 8),
        Err(RadioError::InvalidChannel)
    ));
    assert!(matches!(
        Scheduler::new(Led::new_gpio(), 0, 15, 8),
        Err(RadioError::InvalidChannel)
    ));
    assert!(Scheduler::new(Led::new_gpio(), 0, 11, 8).is_ok());
}

#[test]
fn one_pass_discovery_scenario() {
    let mut engine = Scheduler::new(Led::new_gpio(), 0, 11, 8).unwrap();
    let src = MacAddress([0xaa, 0xbb, 0xcc, 0xdd, 0xee, 0xff]);
    let frame = Frame { src, dst: broadcast_address(), payload: b"ping".to_vec() };

    // first pass: the indicator lights, the sender is discovered and
    // greeted, no broadcast is due yet
    let out = engine.tick(10, Some(frame));
    assert_eq!(out.led, LedCommand::SetLevel(true));
    let greeting = out.greeting.expect("first contact owes a greeting");
    assert_eq!(greeting.dest.0, src.0);
    assert_eq!(greeting.payload, b"Hello Peer".to_vec());
    assert!(out.broadcast.is_none());
    assert_eq!(engine.peer_count(), 1);
    assert!(engine.peer_exists(&src));

    // second identical frame: dark phase, table unchanged, no new greeting
    let frame2 = Frame { src, dst: broadcast_address(), payload: b"ping".to_vec() };
    let out2 = engine.tick(20, Some(frame2));
    assert_eq!(out2.led, LedCommand::SetLevel(false));
    assert!(out2.greeting.is_none());
    assert_eq!(engine.peer_count(), 1);
    assert_eq!(engine.peer_at(0).0, src.0);
}

#[test]
fn broadcast_cadence_through_the_scheduler() {
    let mut engine = Scheduler::new(Led::new_gpio(), 0, 11, 8).unwrap();
    // quiet passes before the deadline
    assert!(engine.tick(100, None).broadcast.is_none());
    assert!(engine.tick(4999, None).broadcast.is_none());
    // the deadline passes with no inbound traffic: exactly one broadcast
    let out = engine.tick(5000, None);
    let cmd = out.broadcast.expect("deadline reached");
    assert!(cmd.dest.is_broadcast());
    assert_eq!(cmd.payload, b"0123456789".to_vec());
    // 4.9 seconds later nothing fires; 0.1 more and the next one does
    assert!(engine.tick(9900, None).broadcast.is_none());
    assert!(engine.tick(10000, None).broadcast.is_some());
}
