//! Events that can befall the station on a day.
use vstd::prelude::*;

verus! {

#[derive(Debug, Clone, Copy, PartialEq, Eq, Structural)]
pub enum Event {
    /// A module comes back!
    AModuleComesBack,
    DangerousSolarFlare,
    DeepSpacePulse,
    /// Deep-space whale sound!?
    DeepSpaceWhaleSound,
    EarthIsDead,
    MessageFromEarth,
    MoonBaseSignal,
    Paradox,
    PowerSurgeKillsAModule,
    ReConnectionToAnOldSatelliteNetwork,
    /// Nothing happens; roll again.
    NullEvent,
    /// Total power failure: all modules die early.
    TotalPowerFailure,
}

} // verus!
