//! What every emulated machine offers its collaborator.
use crate::error::EmuError;
use vstd::prelude::*;

verus! {

/// What the collaborator should do with the beep after a timer tick.
#[derive(Debug, Clone, Copy, PartialEq, Eq, Structural)]
pub enum AudioCue {
    /// Play the beep.
    Play,
    /// Silence the beep.
    Pause,
    /// Leave the audio as it is (the machine is muted).
    Keep,
}

/// The cue for a tick that starts with the sound timer at `sound`.
pub open spec fn timer_cue_spec(sound: u8, mute: bool) -> AudioCue {
    if mute {
        AudioCue::Keep
    } else if sound > 0 {
        AudioCue::Play
    } else {
        AudioCue::Pause
    }
}

/// The cue for a tick that starts with the sound timer at `sound`: the beep sounds while
/// the sound timer is positive.
pub fn timer_cue(sound: u8, mute: bool) -> (r: AudioCue)
    ensures
        r == timer_cue_spec(sound, mute),
{
    if mute {
        AudioCue::Keep
    } else if sound > 0 {
        AudioCue::Play
    } else {
        AudioCue::Pause
    }
}

/// The interface one emulated machine offers the collaborator that drives it.
pub trait Emulator {
    /// System-specific metadata type.
    type Metadata;

    /// Name of the system (e.g. "CHIP-8").
    fn system_name(&self) -> &'static str;

    /// Loads a program image.
    fn load_rom(&mut self, rom: &[u8]) -> Result<(), EmuError>;

    /// Restores the power-up state.
    fn reset(&mut self);

    /// Executes one instruction.
    fn step(&mut self) -> Result<(), EmuError>;

    /// Advances the timers by one tick of the 60 Hz cadence.
    fn update_timers(&mut self) -> AudioCue;

    /// Framebuffer as ARGB8888 pixels, row by row.
    fn framebuffer(&self) -> &[u32];

    /// Width and height of the framebuffer.
    fn resolution(&self) -> (usize, usize);

    /// Replaces the state of the logical keys.
    fn set_input_state(&mut self, inputs: &[bool]);

    /// A copy of the machine state for debugging views.
    fn metadata(&self) -> Self::Metadata;

    /// The logical keys in order, each with the label of the physical key it is bound to.
    fn keymap(&self) -> Vec<(usize, String)>;
}

/// The key list of a label table: entry `i` is `(i, labels[i])`.
pub fn keymap_of(labels: &[&'static str]) -> (r: Vec<(usize, String)>)
    ensures
        r@.len() == labels@.len(),
        forall|i: int| 0 <= i < r@.len() ==> (#[trigger] r@[i]).0 == i && r@[i].1@ == labels@[i]@,
{
    let mut keys: Vec<(usize, String)> = Vec::new();
    let mut i: usize = 0;
    while i < labels.len()
        invariant
            i <= labels@.len(),
            keys@.len() == i,
            forall|j: int| 0 <= j < i ==> (#[trigger] keys@[j]).0 == j && keys@[j].1@ == labels@[j]@,
        decreases labels@.len() - i,
    {
        keys.push((i, labels[i].to_owned()));
        i += 1;
    }
    keys
}

} // verus!
