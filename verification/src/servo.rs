//! The steering servo of one arm, commanded over a shared bus.

use vstd::prelude::*;
use crate::command::Command;
use crate::intersection::IntersectionActionDirection;
use crate::pin_mockup::Pin;

verus! {

/// The largest angle, in degrees, that a servo can be set to.
pub const MAX_ANGLE: u8 = 180;

/// What a servo is, as a mathematical value.
pub struct ServoState {
    /// The angle for the direction right.
    pub right_angle: u8,
    /// The angle for the direction left.
    pub left_angle: u8,
    /// The number by which the bus device tells its servos apart.
    pub id: u8,
    /// The bus address of the device that drives the servo.
    pub address: u8,
}

impl ServoState {
    /// The angle that the servo takes for `direction`.
    pub open spec fn angle(self, direction: IntersectionActionDirection) -> u8 {
        match direction {
            IntersectionActionDirection::Right => self.right_angle,
            IntersectionActionDirection::Left => self.left_angle,
        }
    }

    /// The bus write that sets the servo to `direction`.
    pub open spec fn frame(self, direction: IntersectionActionDirection) -> Command {
        Command::Servo { address: self.address, id: self.id, angle: self.angle(direction) }
    }

    /// Both angles are angles that a servo can take.
    pub open spec fn valid(self) -> bool {
        self.right_angle <= MAX_ANGLE && self.left_angle <= MAX_ANGLE
    }
}

/// A servo that can be set to one of two angles.
#[derive(Clone, Copy, Debug)]
pub struct Servo {
    /// The image of the pin that the servo is wired to.
    pin: Pin,
    /// The angle for the direction right.
    right_angle: u8,
    /// The angle for the direction left.
    left_angle: u8,
    id: u8,
    address: u8,
}

impl View for Servo {
    type V = ServoState;

    closed spec fn view(&self) -> ServoState {
        ServoState {
            right_angle: self.right_angle,
            left_angle: self.left_angle,
            id: self.id,
            address: self.address,
        }
    }
}

impl Servo {
    /// Both angles of a servo are at most [`MAX_ANGLE`].
    #[verifier::type_invariant]
    spec fn angles_in_range(self) -> bool {
        self.right_angle <= MAX_ANGLE && self.left_angle <= MAX_ANGLE
    }

    /// Whether `right_angle` and `left_angle` may be given to [`Servo::new`].
    pub fn angles_valid(right_angle: u8, left_angle: u8) -> (valid: bool)
        ensures
            valid == (right_angle <= MAX_ANGLE && left_angle <= MAX_ANGLE),
    {
        right_angle <= MAX_ANGLE && left_angle <= MAX_ANGLE
    }

    /// The bus write that sets the servo to `direction`: the servo's id and
    /// the angle for that direction, sent to the servo's address.
    pub fn set_direction(&self, direction: &IntersectionActionDirection) -> (frame: Command)
        ensures
            frame == self@.frame(*direction),
            self@.valid(),
    {
        proof {
            use_type_invariant(self);
        }
        let angle = match direction {
            IntersectionActionDirection::Right => self.right_angle,
            IntersectionActionDirection::Left => self.left_angle,
        };
        Command::Servo { address: self.address, id: self.id, angle }
    }

    /// A servo with the given angles, together with the bus write that sets
    /// it to the direction right, which is where a servo starts.
    pub fn new(pin: Pin, right_angle: u8, left_angle: u8, id: u8, address: u8) -> (made: (
        Servo,
        Command,
    ))
        requires
            right_angle <= MAX_ANGLE,
            left_angle <= MAX_ANGLE,
        ensures
            made.0@ == (ServoState { right_angle, left_angle, id, address }),
            made.0.pin_spec() == pin,
            made.1 == made.0@.frame(IntersectionActionDirection::Right),
    {
        let servo = Servo { pin, right_angle, left_angle, address, id };
        let frame = servo.set_direction(&IntersectionActionDirection::Right);
        (servo, frame)
    }

    /// The image of the pin that the servo is wired to.
    pub closed spec fn pin_spec(&self) -> Pin {
        self.pin
    }

    /// The image of the pin that the servo is wired to.
    pub fn pin(&self) -> (pin: Pin)
        ensures
            pin == self.pin_spec(),
    {
        self.pin
    }
}

} // verus!
