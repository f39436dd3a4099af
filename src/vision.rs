//! What the vision thread runs: whether it captures, which detector
//! sessions it holds and at which input size, as its commands set them.
use vstd::prelude::*;
use crate::detection::SessionType;
use crate::effect::VisionMgmtCommand;

verus! {

/// The detector sessions held.
#[derive(Debug, Clone, Copy, PartialEq, Eq, Structural)]
pub enum SessionSet {
    Pylon,
    PylonOcr,
    Animal,
}

/// The vision thread's settings.
#[derive(Debug, Clone, Copy, PartialEq, Eq, Structural)]
pub struct VisionControl {
    /// Whether frames are captured.
    pub on: bool,
    pub sessions: SessionSet,
    pub session_type: SessionType,
}

/// The settings after a command.
pub open spec fn applied(c: VisionControl, cmd: VisionMgmtCommand) -> VisionControl {
    match cmd {
        VisionMgmtCommand::On => VisionControl { on: true, ..c },
        VisionMgmtCommand::Off => VisionControl { on: false, ..c },
        VisionMgmtCommand::SwitchSessionPylon => VisionControl { sessions: SessionSet::Pylon, ..c },
        VisionMgmtCommand::SwitchSessionPylonOcr => VisionControl { sessions: SessionSet::PylonOcr, ..c },
        VisionMgmtCommand::SwitchSessionAnimal => VisionControl { sessions: SessionSet::Animal, ..c },
        VisionMgmtCommand::SwitchSz320 => VisionControl { session_type: SessionType::Sz320, ..c },
        VisionMgmtCommand::SwitchSz640 => VisionControl { session_type: SessionType::Sz640, ..c },
    }
}

impl VisionControl {
    /// Capturing, with the pylon sessions at 320.
    pub fn new() -> (r: VisionControl)
        ensures
            r == (VisionControl { on: true, sessions: SessionSet::Pylon, session_type: SessionType::Sz320 }),
    {
        VisionControl { on: true, sessions: SessionSet::Pylon, session_type: SessionType::Sz320 }
    }

    /// Applies a command.
    pub fn apply(&mut self, cmd: VisionMgmtCommand)
        ensures
            *final(self) == applied(*old(self), cmd),
    {
        match cmd {
            VisionMgmtCommand::On => self.on = true,
            VisionMgmtCommand::Off => self.on = false,
            VisionMgmtCommand::SwitchSessionPylon => self.sessions = SessionSet::Pylon,
            VisionMgmtCommand::SwitchSessionPylonOcr => self.sessions = SessionSet::PylonOcr,
            VisionMgmtCommand::SwitchSessionAnimal => self.sessions = SessionSet::Animal,
            VisionMgmtCommand::SwitchSz320 => self.session_type = SessionType::Sz320,
            VisionMgmtCommand::SwitchSz640 => self.session_type = SessionType::Sz640,
        }
    }

    /// Whether the sessions read digits.
    pub fn support_ocr(&self) -> (r: bool)
        ensures
            r == (self.sessions == SessionSet::PylonOcr),
    {
        match self.sessions {
            SessionSet::PylonOcr => true,
            _ => false,
        }
    }
}

} // verus!
