//! The traffic light of one arm.

use vstd::prelude::*;
use crate::intersection::IntersectionActionLight;
use crate::pin_mockup::Pin;

verus! {

/// The pin level at which a lamp is lit.
pub const LIGHT_ACTIVE: bool = true;

/// The levels of the green, yellow and red pin, in that order, for each
/// action: green alone, yellow alone, red alone, red with yellow, or none.
pub open spec fn light_levels(state: IntersectionActionLight) -> (bool, bool, bool) {
    match state {
        IntersectionActionLight::Green(_) => (LIGHT_ACTIVE, !LIGHT_ACTIVE, !LIGHT_ACTIVE),
        IntersectionActionLight::Yellow => (!LIGHT_ACTIVE, LIGHT_ACTIVE, !LIGHT_ACTIVE),
        IntersectionActionLight::Red => (!LIGHT_ACTIVE, !LIGHT_ACTIVE, LIGHT_ACTIVE),
        IntersectionActionLight::RedYellow => (!LIGHT_ACTIVE, LIGHT_ACTIVE, LIGHT_ACTIVE),
        IntersectionActionLight::Off => (!LIGHT_ACTIVE, !LIGHT_ACTIVE, !LIGHT_ACTIVE),
    }
}

/// A traffic light with three lamps.
#[derive(Clone, Copy, Debug)]
pub struct Light {
    /// The image of the pin of the green lamp.
    green_light: Pin,
    /// The image of the pin of the yellow lamp.
    yellow_light: Pin,
    /// The image of the pin of the red lamp.
    red_light: Pin,
}

impl View for Light {
    type V = (bool, bool, bool);

    /// The levels of the green, yellow and red pin.
    closed spec fn view(&self) -> (bool, bool, bool) {
        (self.green_light@, self.yellow_light@, self.red_light@)
    }
}

impl Light {
    /// A light on the three given pins, together with the levels that the
    /// pins are driven to at once: every lamp is switched off.
    pub fn new(green_light: Pin, yellow_light: Pin, red_light: Pin) -> (made: (
        Light,
        (bool, bool, bool),
    ))
        ensures
            made.0@ == light_levels(IntersectionActionLight::Off),
            made.1 == light_levels(IntersectionActionLight::Off),
    {
        let mut light = Light { green_light, yellow_light, red_light };
        let levels = light.set_state(&IntersectionActionLight::Off);
        (light, levels)
    }

    /// Shows `state`. All three pins are written on every call; the levels
    /// written are returned as green, yellow, red. They depend on `state`
    /// alone, not on what the light showed before.
    pub fn set_state(&mut self, state: &IntersectionActionLight) -> (levels: (bool, bool, bool))
        ensures
            levels == light_levels(*state),
            final(self)@ == levels,
    {
        let light_states = match state {
            IntersectionActionLight::Green(_) => (LIGHT_ACTIVE, !LIGHT_ACTIVE, !LIGHT_ACTIVE),
            IntersectionActionLight::Yellow => (!LIGHT_ACTIVE, LIGHT_ACTIVE, !LIGHT_ACTIVE),
            IntersectionActionLight::Red => (!LIGHT_ACTIVE, !LIGHT_ACTIVE, LIGHT_ACTIVE),
            IntersectionActionLight::RedYellow => (!LIGHT_ACTIVE, LIGHT_ACTIVE, LIGHT_ACTIVE),
            IntersectionActionLight::Off => (!LIGHT_ACTIVE, !LIGHT_ACTIVE, !LIGHT_ACTIVE),
        };
        self.green_light.set_state(light_states.0);
        self.yellow_light.set_state(light_states.1);
        self.red_light.set_state(light_states.2);
        light_states
    }

    /// The levels of the green, yellow and red pin.
    pub fn levels(&self) -> (levels: (bool, bool, bool))
        ensures
            levels == self@,
    {
        (self.green_light.is_high(), self.yellow_light.is_high(), self.red_light.is_high())
    }
}

/// The table of the lights: green lights the green lamp alone, yellow the
/// yellow lamp alone, red the red lamp alone, red with yellow those two, and
/// off none. A lit lamp has its pin high.
pub proof fn lemma_light_table(state: IntersectionActionLight)
    ensures
        light_levels(state) == match state {
            IntersectionActionLight::Green(_) => (true, false, false),
            IntersectionActionLight::Yellow => (false, true, false),
            IntersectionActionLight::Red => (false, false, true),
            IntersectionActionLight::RedYellow => (false, true, true),
            IntersectionActionLight::Off => (false, false, false),
        },
{
}

} // verus!
