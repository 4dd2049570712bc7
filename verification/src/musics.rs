use vstd::prelude::*;

verus! {

/// Capability interface: audio playback.
pub trait CanPlayMusic {
    fn play(&self, name: &str, volume: i32) -> Result<(), String>;

    fn play_sound(&self, name: &str, volume: i32) -> Result<(), String>;

    fn stop(&self) -> Result<(), String>;
}

} // verus!
