//! The names and texts of events and machines.

use vstd::prelude::*;

verus! {

/// The event in which a comet tears a hole into the base.
pub const COMET_IMPACT: &'static str = "comet impact";

/// What the player is told about a comet impact.
pub const COMET_IMPACT_INFO: &'static str = "A comet has struck the base and torn a hole into its hull.";

/// The event in which the power fails.
pub const POWER_OUTAGE: &'static str = "power outage";

/// What the player is told about a power outage.
pub const POWER_OUTAGE_INFO: &'static str = "The generator has failed and the base is without power.";

/// The event in which a sandstorm wears on the base.
pub const SANDSTORM: &'static str = "sandstorm";

/// What the player is told about a sandstorm.
pub const SANDSTORM_INFO: &'static str = "A sandstorm is raging outside and wears on the base.";

/// The event that brings word from mission control.
pub const NASA_INFORMATION: &'static str = "information from NASA";

/// What the player is told about word from mission control.
pub const NASA_INFORMATION_INFO: &'static str = "Mission control has sent a message.";

/// The event that tells a fact about the planet.
pub const MARS_INFORMATION: &'static str = "information about Mars";

/// What the player is told about such a fact.
pub const MARS_INFORMATION_INFO: &'static str = "There is something to learn about Mars.";

/// The machine that stands for the hole in the hull.
pub const HOLE: &'static str = "hole";

/// The machine that supplies the base with power.
pub const POWER_GENERATOR: &'static str = "Stromgenerator";

/// The warning shown on a comet impact.
pub const COMET_IMPACT_WARNING: &'static str = "A comet has hit the base! Mend the hole before the air runs out!";

/// The warning shown on a power outage.
pub const POWER_OUTAGE_WARNING: &'static str = "The power is out! Repair the generator!";

/// The warning shown on a sandstorm.
pub const SANDSTORM_WARNING: &'static str = "A sandstorm! Oxygen and energy are draining faster!";

/// The number of messages from mission control.
pub const NASA_MESSAGES: usize = 4;

/// The number of facts about the planet.
pub const MARS_FACTS: usize = 5;

/// The popup type of a warning.
pub const WARNING: &'static str = "warning";

/// The popup type of a message from mission control.
pub const NASA: &'static str = "nasa";

/// The popup type of a fact about the planet.
pub const MARS: &'static str = "mars";

/// The text shown by a popup that could not be classified.
pub const ERROR_TEXT: &'static str = "Error";

/// The message from mission control with the given number; beyond the
/// last number, the last message.
pub open spec fn nasa_message_text(pick: int) -> Seq<char> {
    if pick == 0 {
        "NASA: Your supply ship is on its way."@
    } else if pick == 1 {
        "NASA: We are proud of you. Hold out!"@
    } else if pick == 2 {
        "NASA: A solar storm is coming. Stay inside."@
    } else {
        "NASA: The data you sent is of great value."@
    }
}

/// The message from mission control with the given number.
pub fn nasa_message(pick: usize) -> (text: &'static str)
    ensures
        text@ == nasa_message_text(pick as int),
{
    if pick == 0 {
        "NASA: Your supply ship is on its way."
    } else if pick == 1 {
        "NASA: We are proud of you. Hold out!"
    } else if pick == 2 {
        "NASA: A solar storm is coming. Stay inside."
    } else {
        "NASA: The data you sent is of great value."
    }
}

/// The fact about the planet with the given number; beyond the last
/// number, the last fact.
pub open spec fn mars_fact_text(pick: int) -> Seq<char> {
    if pick == 0 {
        "Mars: A day on Mars lasts 24 hours and 37 minutes."@
    } else if pick == 1 {
        "Mars: A year on Mars lasts 687 days on Earth."@
    } else if pick == 2 {
        "Mars: Olympus Mons is the highest mountain known on any planet."@
    } else if pick == 3 {
        "Mars: Mars has two moons, Phobos and Deimos."@
    } else {
        "Mars: The air of Mars is mostly carbon dioxide."@
    }
}

/// The fact about the planet with the given number.
pub fn mars_fact(pick: usize) -> (text: &'static str)
    ensures
        text@ == mars_fact_text(pick as int),
{
    if pick == 0 {
        "Mars: A day on Mars lasts 24 hours and 37 minutes."
    } else if pick == 1 {
        "Mars: A year on Mars lasts 687 days on Earth."
    } else if pick == 2 {
        "Mars: Olympus Mons is the highest mountain known on any planet."
    } else if pick == 3 {
        "Mars: Mars has two moons, Phobos and Deimos."
    } else {
        "Mars: The air of Mars is mostly carbon dioxide."
    }
}

/// Whether two texts are the same, character by character.
pub fn same_text(a: &str, b: &str) -> (same: bool)
    ensures
        same == (a@ == b@),
{
    a.to_owned() == b.to_owned()
}

} // verus!
