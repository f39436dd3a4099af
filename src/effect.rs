//! What a handler asks of the device, the speaker, vision and the notifier.
//! The drive loop performs these in order.
use vstd::prelude::*;

verus! {

/// Commands to the vision collaborator.
#[derive(Debug, Clone, Copy, PartialEq, Eq, Structural)]
pub enum VisionMgmtCommand {
    On,
    Off,
    SwitchSessionPylon,
    SwitchSessionPylonOcr,
    SwitchSessionAnimal,
    SwitchSz320,
    SwitchSz640,
}

/// Commands to the device watchdog.
#[derive(Debug, Clone, Copy, PartialEq, Eq, Structural)]
pub enum DeviceMgmtCommand {
    Stop,
}

/// Speech cues.
#[derive(Debug, Clone, Copy, PartialEq, Eq, Structural)]
pub enum Cue {
    HighTemp,
    Bumped,
    PersonDetecting,
    PersonDetectingWarn,
    AnimalDetecting,
    ConeNotFound,
    NewConeFound,
    CloseToCone,
    SwitchOcrMode,
    /// The digit that the robot has locked onto.
    Target(u8),
}

/// Notifications with the last image attached.
#[derive(Debug, Clone, Copy, PartialEq, Eq, Structural)]
pub enum Alert {
    Person,
    /// An animal of the given class id.
    Animal(u32),
}

/// One thing for the drive loop to do. Durations are in milliseconds; a
/// motion of duration 0 lasts until the next command.
#[derive(Debug, Clone, Copy, PartialEq, Eq, Structural)]
pub enum Effect {
    /// Drive and work motors off.
    Stop,
    /// Drive motors off.
    Pause,
    Forward(u64),
    Backward(u64),
    Left(u64),
    Right(u64),
    /// Block the drive loop.
    Wait(u64),
    /// Add to the left and right drive motor powers, in millionths.
    AdjustPower(i64, i64),
    /// Run the work motor.
    WorkMotorCw,
    Speak(Cue),
    Vision(VisionMgmtCommand),
    Notify(Alert),
}

/// Whether an effect sets a drive motor running.
pub open spec fn moves(e: Effect) -> bool {
    e is Forward || e is Backward || e is Left || e is Right
}

/// Whether the drive motors stand still once the effects are done: some
/// `Stop` or `Pause` comes after every motion.
pub open spec fn ends_idle(fx: Seq<Effect>) -> bool {
    exists|i: int|
        0 <= i < fx.len() && (fx[i] is Stop || fx[i] is Pause) && forall|j: int|
            i < j < fx.len() ==> !moves(#[trigger] fx[j])
}

/// The lowest power at which a drive motor is kept, exclusive, in millionths.
pub const POWER_LOW: i64 = 400_000;

/// The highest power, exclusive, in millionths.
pub const POWER_HIGH: i64 = 1_000_000;

/// A drive motor power after a trim: the trimmed value when it stays strictly
/// between 0.4 and 1.0, else the power unchanged.
pub open spec fn trimmed_power(power: int, delta: int) -> int {
    if POWER_LOW < power + delta && power + delta < POWER_HIGH {
        power + delta
    } else {
        power
    }
}

/// Trims a drive motor power, in millionths.
pub fn adjust_power(power: u32, delta: i64) -> (r: u32)
    ensures
        r as int == trimmed_power(power as int, delta as int),
{
    let p = power as i128 + delta as i128;
    if (POWER_LOW as i128) < p && p < (POWER_HIGH as i128) {
        p as u32
    } else {
        power
    }
}

} // verus!
