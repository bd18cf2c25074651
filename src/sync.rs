use vstd::prelude::*;

verus! {

/// The simulation's own copying between its pose and the presentation transform.
#[derive(Debug, Clone, Copy, PartialEq, Eq, Structural)]
pub struct SyncSettings {
    /// Whether the simulation copies its pose into the presentation transform.
    pub position_to_transform: bool,
    /// Whether the simulation reads its pose back from the presentation transform.
    pub transform_to_position: bool,
}

/// A fault in how the application was put together, found at startup.
#[derive(Debug, Clone, Copy, PartialEq, Eq, Structural)]
pub enum SetupError {
    /// The simulation's sync settings were not there to be switched off: the simulation
    /// was not set up before interpolation.
    MissingSyncConfig,
}

/// The settings with both directions switched off.
pub open spec fn sync_disabled() -> SyncSettings {
    SyncSettings { position_to_transform: false, transform_to_position: false }
}

/// Makes interpolation the only writer of the presentation transform, by switching off
/// both directions of the simulation's own copying. Where the settings are not there,
/// nothing is changed and the fault is reported: going on would show wrong transforms.
pub fn disable_transform_sync(config: &mut Option<SyncSettings>) -> (r: Result<(), SetupError>)
    ensures
        old(config).is_some() ==> r == Ok::<(), SetupError>(()) && *final(config) == Some(
            sync_disabled(),
        ),
        old(config).is_none() ==> r == Err::<(), SetupError>(SetupError::MissingSyncConfig)
            && final(config).is_none(),
{
    match config {
        Some(settings) => {
            *settings = SyncSettings { position_to_transform: false, transform_to_position: false };
            Ok(())
        },
        None => Err(SetupError::MissingSyncConfig),
    }
}

} // verus!
