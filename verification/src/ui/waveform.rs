//! Where markers stand in the waveform.

use vstd::prelude::*;

verus! {

/// Whether a time lies in the window that starts at `time_start` and is
/// `time_range` wide, or at its end.
pub open spec fn marker_in_view(marker_time: u64, time_start: u64, time_range: u64) -> bool {
    time_start <= marker_time <= time_start + time_range
}

/// Tests whether a marker lies in the window or at its end, so that it is
/// drawn.
pub fn marker_is_visible_at_current_zoom_level(
    marker_time: u64,
    time_start: u64,
    time_range: u64,
) -> (b: bool)
    ensures
        b == marker_in_view(marker_time, time_start, time_range),
{
    marker_time >= time_start && marker_time - time_start <= time_range
}

} // verus!
