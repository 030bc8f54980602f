use ring_sense::colors::{Color, Colors};
use ring_sense::leds::{LedControllerResource, setup_lights, render_outcome, NUM_RINGS};

#[test]
fn setup_lights_starts_fully_clear() {
    let leds = setup_lights();
    let p = Colors::default();
    let frame = leds.frame();
    assert_eq!(frame.len(), NUM_RINGS);
    assert_eq!(frame.len(), 34);
    for c in frame.iter() {
        assert_eq!(*c, p.clear);
    }
}

#[test]
fn set_ring_color_touches_only_its_ring() {
    let p = Colors::default();
    let mut leds = LedControllerResource::new();
    leds.set_ring_color(0, p.green);
    leds.set_ring_color(7, p.yellow);
    leds.set_ring_color(33, p.purple);
    let before = leds.frame().clone();

    leds.set_ring_color(5, p.red);

    let after = leds.frame();
    assert_eq!(after[5], p.red);
    for j in 0..NUM_RINGS {
        if j != 5 {
            assert_eq!(after[j], before[j], "ring {} changed under a write to ring 5", j);
        }
    }
    assert_eq!(after[0], p.green);
    assert_eq!(after[7], p.yellow);
    assert_eq!(after[33], p.purple);
}

#[test]
fn set_all_color_fills_every_ring() {
    let p = Colors::default();
    let mut leds = LedControllerResource::new();
    leds.set_all_color(p.blue);
    for j in 0..NUM_RINGS {
        assert_eq!(leds.ring_color(j), p.blue);
    }
}

#[test]
fn clear_leds_twice_gives_the_same_clear_frame() {
    let p = Colors::default();
    let mut leds = LedControllerResource::new();
    leds.set_all_color(p.white);
    leds.set_ring_color(12, p.red);

    leds.clear_leds();
    let first = leds.frame().clone();
    leds.clear_leds();
    let second = leds.frame().clone();

    assert_eq!(first, second);
    assert_eq!(first.len(), NUM_RINGS);
    for c in first.iter() {
        assert_eq!(*c, p.clear);
    }
}

#[test]
fn render_outcome_is_fatal_exactly_on_failure() {
    assert!(render_outcome(true).is_ok());
    assert!(render_outcome(false).is_err());
}

#[test]
fn colors_default_is_one_fixed_palette() {
    assert_eq!(Colors::default(), Colors::default());
    assert_ne!(Colors::default().red, Color { c0: 255, c1: 0, c2: 0, c3: 0 });
}
