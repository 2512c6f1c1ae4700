use vstd::prelude::*;

verus! {

/// Largest hue value OpenCV uses for 8-bit HSV images.
pub const HUE_LIMIT: i32 = 179;

/// Largest saturation / value channel value.
pub const CHANNEL_LIMIT: i32 = 255;

/// Clamp `v` into `[lo, hi]` (with `lo <= hi`).
pub open spec fn clamp_int(v: int, lo: int, hi: int) -> int {
    if v < lo {
        lo
    } else if v > hi {
        hi
    } else {
        v
    }
}

fn clamp_i32(v: i32, lo: i32, hi: i32) -> (r: i32)
    requires
        lo <= hi,
    ensures
        r == clamp_int(v as int, lo as int, hi as int),
{
    if v < lo {
        lo
    } else if v > hi {
        hi
    } else {
        v
    }
}

/// Inclusive HSV colour window that selects one detection target.
#[derive(Clone, Copy, Debug, PartialEq, Eq, Structural)]
pub struct HsvThresholds {
    pub h_min: i32,
    pub s_min: i32,
    pub v_min: i32,
    pub h_max: i32,
    pub s_max: i32,
    pub v_max: i32,
}

impl HsvThresholds {
    /// The window after clamping every bound into its channel range and every
    /// upper bound to at least its lower bound.
    pub open spec fn spec_normalized(self) -> HsvThresholds {
        let h_min = clamp_int(self.h_min as int, 0, HUE_LIMIT as int);
        let s_min = clamp_int(self.s_min as int, 0, CHANNEL_LIMIT as int);
        let v_min = clamp_int(self.v_min as int, 0, CHANNEL_LIMIT as int);
        HsvThresholds {
            h_min: h_min as i32,
            s_min: s_min as i32,
            v_min: v_min as i32,
            h_max: clamp_int(self.h_max as int, h_min, HUE_LIMIT as int) as i32,
            s_max: clamp_int(self.s_max as int, s_min, CHANNEL_LIMIT as int) as i32,
            v_max: clamp_int(self.v_max as int, v_min, CHANNEL_LIMIT as int) as i32,
        }
    }

    /// A window whose bounds lie inside the channel ranges, lower bound first.
    pub open spec fn is_normalized(self) -> bool {
        &&& 0 <= self.h_min <= self.h_max <= HUE_LIMIT
        &&& 0 <= self.s_min <= self.s_max <= CHANNEL_LIMIT
        &&& 0 <= self.v_min <= self.v_max <= CHANNEL_LIMIT
    }

    /// Clamp the thresholds into valid OpenCV HSV ranges.
    pub fn normalized(self) -> (r: Self)
        ensures
            r == self.spec_normalized(),
            r.is_normalized(),
    {
        let h_min = clamp_i32(self.h_min, 0, HUE_LIMIT);
        let s_min = clamp_i32(self.s_min, 0, CHANNEL_LIMIT);
        let v_min = clamp_i32(self.v_min, 0, CHANNEL_LIMIT);
        let h_max = clamp_i32(self.h_max, h_min, HUE_LIMIT);
        let s_max = clamp_i32(self.s_max, s_min, CHANNEL_LIMIT);
        let v_max = clamp_i32(self.v_max, v_min, CHANNEL_LIMIT);
        HsvThresholds { h_min, s_min, v_min, h_max, s_max, v_max }
    }
}

impl Default for HsvThresholds {
    /// The yellow-green puck window the detector starts with.
    fn default() -> (r: Self)
        ensures
            r == (HsvThresholds { h_min: 36, s_min: 91, v_min: 100, h_max: 47, s_max: 255, v_max: 209 }),
    {
        HsvThresholds { h_min: 36, s_min: 91, v_min: 100, h_max: 47, s_max: 255, v_max: 209 }
    }
}

/// Normalizing a window that is already normalized leaves it unchanged, so
/// normalizing twice is the same as normalizing once.
pub proof fn lemma_normalized_idempotent(t: HsvThresholds)
    ensures
        t.is_normalized() ==> t.spec_normalized() == t,
        t.spec_normalized().spec_normalized() == t.spec_normalized(),
        t.spec_normalized().is_normalized(),
{
}

/// The default window already lies inside the channel ranges.
pub proof fn lemma_default_is_normalized()
    ensures
        (HsvThresholds { h_min: 36, s_min: 91, v_min: 100, h_max: 47, s_max: 255, v_max: 209 }).is_normalized(),
{
}

/// How much of the frame the detector keeps, from full resolution down.
#[derive(Clone, Copy, Debug, PartialEq, Eq, Structural)]
pub enum ProcessingQuality {
    High,
    Medium,
    Low,
    UltraLow,
}

impl ProcessingQuality {
    pub open spec fn spec_morphology_kernel_size(self) -> i32 {
        match self {
            ProcessingQuality::High => 5,
            ProcessingQuality::Medium => 5,
            ProcessingQuality::Low => 3,
            ProcessingQuality::UltraLow => 1,
        }
    }

    /// Side length of the elliptic opening kernel used to clean masks.
    pub fn morphology_kernel_size(self) -> (r: i32)
        ensures
            r == self.spec_morphology_kernel_size(),
    {
        match self {
            ProcessingQuality::High => 5,
            ProcessingQuality::Medium => 5,
            ProcessingQuality::Low => 3,
            ProcessingQuality::UltraLow => 1,
        }
    }

    /// An opening with a kernel of side one changes nothing, so at such a
    /// quality the raw mask is used as the cleaned mask.
    pub fn skips_opening(self) -> (r: bool)
        ensures
            r == (self.spec_morphology_kernel_size() <= 1),
    {
        self.morphology_kernel_size() <= 1
    }
}

} // verus!
