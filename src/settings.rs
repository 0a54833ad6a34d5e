use vstd::prelude::*;

verus! {

/// Number of volume levels offered by the sound settings screen (0 to 9).
pub const VOLUME_LEVELS: u32 = 10;

/// Rendering quality chosen on the display settings screen.
#[derive(Clone, Copy, Debug, PartialEq, Eq, Structural)]
pub enum DisplayQuality {
    Low,
    Medium,
    High,
}

/// Sound volume, a level from 0 to 9.
#[derive(Clone, Copy, Debug, PartialEq, Eq, Structural)]
pub struct Volume(pub u32);

impl Volume {
    pub open spec fn wf(self) -> bool {
        self.0 < VOLUME_LEVELS
    }
}

/// The quality a process starts with.
pub fn default_quality() -> (r: DisplayQuality)
    ensures
        r == DisplayQuality::Medium,
{
    DisplayQuality::Medium
}

/// The volume a process starts with.
pub fn default_volume() -> (r: Volume)
    ensures
        r == Volume(7),
        r.wf(),
{
    Volume(7)
}

} // verus!
