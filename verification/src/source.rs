use vstd::prelude::*;

use std::sync::Arc;
use std::sync::atomic::{AtomicBool, AtomicU32};

verus! {

/// A source of samples whose gain the mixer reads on every sample from two
/// cells that the controlling side writes: the layer's volume in percent and
/// whether the layer is unmuted.
pub struct VolumeSource<S> {
    pub inner: S,
    pub volume: Arc<AtomicU32>,
    pub active: Arc<AtomicBool>,
}

/// The gain, in percent, that a layer with this mute flag and volume applies
/// to its samples: silence while muted, the volume otherwise.
pub open spec fn gain_of(active: bool, level: u32) -> u32 {
    if active {
        level
    } else {
        0
    }
}

/// An unmuted layer plays at its volume, whatever the volume (full volume
/// and above included); a muted layer is silent; and a layer is silent only
/// while muted or at volume 0.
pub proof fn lemma_gain_rules(active: bool, level: u32)
    ensures
        gain_of(true, level) == level,
        gain_of(false, level) == 0,
        gain_of(active, level) == 0 <==> (!active || level == 0),
{
}

/// The gain, in percent, that a layer with this mute flag and volume applies
/// to its samples.
pub fn level_gain(active: bool, level: u32) -> (g: u32)
    ensures
        g == gain_of(active, level),
{
    if !active {
        0
    } else {
        level
    }
}

impl<S> VolumeSource<S> {
    /// Wraps `inner` so that its samples are scaled by the shared volume and
    /// silenced by the shared mute flag.
    pub fn new(inner: S, volume: Arc<AtomicU32>, active: Arc<AtomicBool>) -> (r: Self)
        ensures
            r.inner == inner,
            r.volume == volume,
            r.active == active,
    {
        VolumeSource { inner, volume, active }
    }

    /// The gain, in percent, to apply to the next sample, from the current
    /// contents of the two shared cells (which another thread may change at
    /// any time, so nothing is stated of the values read).
    pub fn gain(&self) -> u32 {
        let active = self.active.load(core::sync::atomic::Ordering::Relaxed);
        let level = self.volume.load(core::sync::atomic::Ordering::Relaxed);
        level_gain(active, level)
    }
}

} // verus!
