use traffic_junction::command::Command;
use traffic_junction::intersection::{IntersectionActionDirection, IntersectionActionLight};
use traffic_junction::lights::{Light, LIGHT_ACTIVE};
use traffic_junction::pin_mockup::Pin;
use traffic_junction::servo::{Servo, MAX_ANGLE};

const ON: bool = LIGHT_ACTIVE;
const OFF: bool = !LIGHT_ACTIVE;

fn dark_light() -> Light {
    Light::new(Pin::new(true), Pin::new(true), Pin::new(true)).0
}

#[test]
fn new_light_is_off_whatever_the_pins_showed() {
    assert_eq!(dark_light().levels(), (OFF, OFF, OFF));
    let (light, first) = Light::new(Pin::new(false), Pin::new(true), Pin::new(false));
    assert_eq!(light.levels(), (OFF, OFF, OFF));
    assert_eq!(first, (OFF, OFF, OFF));
}

#[test]
fn light_table() {
    let mut light = dark_light();
    let right = IntersectionActionDirection::Right;
    let left = IntersectionActionDirection::Left;
    assert_eq!(light.set_state(&IntersectionActionLight::Green(right)), (ON, OFF, OFF));
    assert_eq!(light.levels(), (ON, OFF, OFF));
    assert_eq!(light.set_state(&IntersectionActionLight::Green(left)), (ON, OFF, OFF));
    assert_eq!(light.set_state(&IntersectionActionLight::Yellow), (OFF, ON, OFF));
    assert_eq!(light.levels(), (OFF, ON, OFF));
    assert_eq!(light.set_state(&IntersectionActionLight::Red), (OFF, OFF, ON));
    assert_eq!(light.levels(), (OFF, OFF, ON));
    assert_eq!(light.set_state(&IntersectionActionLight::RedYellow), (OFF, ON, ON));
    assert_eq!(light.levels(), (OFF, ON, ON));
    assert_eq!(light.set_state(&IntersectionActionLight::Off), (OFF, OFF, OFF));
    assert_eq!(light.levels(), (OFF, OFF, OFF));
}

#[test]
fn light_levels_are_high_for_lit() {
    assert!(LIGHT_ACTIVE);
    let mut light = dark_light();
    assert_eq!(light.set_state(&IntersectionActionLight::Red), (false, false, true));
}

#[test]
fn same_action_gives_the_same_writes_from_any_state() {
    let actions = [
        IntersectionActionLight::Green(IntersectionActionDirection::Right),
        IntersectionActionLight::Yellow,
        IntersectionActionLight::Red,
        IntersectionActionLight::RedYellow,
        IntersectionActionLight::Off,
    ];
    for before in actions {
        for action in actions {
            let mut light = dark_light();
            let fresh = light.set_state(&action);
            let mut other = dark_light();
            other.set_state(&before);
            assert_eq!(other.set_state(&action), fresh);
            assert_eq!(other.set_state(&action), fresh);
            assert_eq!(other.levels(), fresh);
        }
    }
}

#[test]
fn servo_sends_id_and_angle_to_its_address() {
    let (servo, _) = Servo::new(Pin::new(false), 30, 90, 4, 0x40);
    assert_eq!(
        servo.set_direction(&IntersectionActionDirection::Right),
        Command::Servo { address: 0x40, id: 4, angle: 30 }
    );
    assert_eq!(
        servo.set_direction(&IntersectionActionDirection::Left),
        Command::Servo { address: 0x40, id: 4, angle: 90 }
    );
}

#[test]
fn new_servo_is_set_to_the_right() {
    let (_, first) = Servo::new(Pin::new(false), 12, 170, 2, 8);
    assert_eq!(first, Command::Servo { address: 8, id: 2, angle: 12 });
}

#[test]
fn servo_takes_the_largest_angle() {
    assert_eq!(MAX_ANGLE, 180);
    let (servo, first) = Servo::new(Pin::new(true), 180, 0, 1, 1);
    assert_eq!(first, Command::Servo { address: 1, id: 1, angle: 180 });
    assert_eq!(
        servo.set_direction(&IntersectionActionDirection::Left),
        Command::Servo { address: 1, id: 1, angle: 0 }
    );
    assert!(servo.pin().is_high());
}

#[test]
fn servo_angles_beyond_the_largest_are_refused() {
    assert!(Servo::angles_valid(0, 0));
    assert!(Servo::angles_valid(180, 180));
    assert!(!Servo::angles_valid(181, 0));
    assert!(!Servo::angles_valid(0, 181));
    assert!(!Servo::angles_valid(255, 255));
}
