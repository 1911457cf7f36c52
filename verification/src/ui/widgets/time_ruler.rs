//! The ruler above the waveform: where its ticks stand and how far they
//! lie apart.

use crate::state::AppState;
use vstd::prelude::*;

verus! {

/// The ruler above the waveform.
#[derive(Debug, Clone, Copy, PartialEq, Eq, Structural)]
pub struct TimeRulerWidget {}

impl Default for TimeRulerWidget {
    fn default() -> (r: Self) {
        TimeRulerWidget {  }
    }
}

/// The column of a time in a window that starts at `time_start`, spans
/// `time_span` and is `width` columns wide: the part of the width that
/// the time has covered, rounded down, and no more than the largest
/// column of all. A time before the window stands in the first column. In
/// a window that spans no time, a time behind its start stands in the
/// largest column of all, if the window has any width.
pub open spec fn column_of(time: u64, time_start: u64, time_span: u64, width: u16) -> int {
    let covered = if time > time_start {
        time - time_start
    } else {
        0
    };
    if time_span == 0 {
        if covered > 0 && width > 0 {
            u16::MAX as int
        } else {
            0
        }
    } else if covered * width / (time_span as int) > u16::MAX {
        u16::MAX as int
    } else {
        covered * width / (time_span as int)
    }
}

/// The column of a time in the window.
pub fn time_to_x(time: u64, time_start: u64, time_span: u64, width: u16) -> (x: u16)
    ensures
        x == column_of(time, time_start, time_span, width),
{
    let covered: u64 = if time > time_start {
        time - time_start
    } else {
        0
    };
    if time_span == 0 {
        if covered > 0 && width > 0 {
            u16::MAX
        } else {
            0
        }
    } else {
        assert(covered * width <= 0xffff_ffff_ffff_ffff * 0xffff) by (nonlinear_arith)
            requires
                covered <= 0xffff_ffff_ffff_ffff,
                width <= 0xffff,
        ;
        let x: u128 = (covered as u128) * (width as u128) / (time_span as u128);
        if x > u16::MAX as u128 {
            u16::MAX
        } else {
            x as u16
        }
    }
}

/// The largest power of ten that is no larger than `n`, or one for zero.
pub open spec fn power_of_ten_below(n: nat) -> nat
    decreases n,
{
    if n < 10 {
        1
    } else {
        10 * power_of_ten_below(n / 10)
    }
}

/// The largest power of ten below a number is at least one and, for a
/// number above zero, no larger than the number.
pub proof fn lemma_power_of_ten_below(n: nat)
    ensures
        power_of_ten_below(n) >= 1,
        n >= 1 ==> power_of_ten_below(n) <= n,
    decreases n,
{
    if n >= 10 {
        lemma_power_of_ten_below(n / 10);
    }
}

/// The span of time that one tick should cover for about one tick in ten
/// columns.
pub open spec fn tick_span(time_span: u64, width: u64) -> nat {
    if width / 10 > 0 {
        (time_span / (width / 10)) as nat
    } else {
        time_span as nat
    }
}

/// How far the ticks of the ruler lie apart: one, two, five or ten times
/// a power of ten, whichever is nearest to the span that a tick should
/// cover.
pub open spec fn tick_interval(time_span: u64, width: u64) -> nat {
    let span = tick_span(time_span, width);
    let magnitude = power_of_ten_below(span);
    if 2 * span < 3 * magnitude {
        magnitude
    } else if 2 * span < 7 * magnitude {
        2 * magnitude
    } else if 2 * span < 15 * magnitude {
        5 * magnitude
    } else {
        10 * magnitude
    }
}

/// The largest power of ten that is no larger than `n`.
fn magnitude_of(n: u64) -> (m: u64)
    ensures
        m == power_of_ten_below(n as nat),
    decreases n,
{
    if n < 10 {
        1
    } else {
        proof {
            lemma_power_of_ten_below((n / 10) as nat);
        }
        10 * magnitude_of(n / 10)
    }
}

/// How far the ticks of the ruler lie apart, for a window that spans
/// `time_span` and is `width` columns wide, or the largest number of all
/// where the distance is larger still.
pub fn calculate_tick_interval(time_span: u64, width: u64) -> (r: u64)
    ensures
        r == if tick_interval(time_span, width) <= u64::MAX {
            tick_interval(time_span, width)
        } else {
            u64::MAX as nat
        },
        r >= 1,
{
    let ticks = width / 10;
    let span: u64 = if ticks > 0 {
        time_span / ticks
    } else {
        time_span
    };
    let magnitude = magnitude_of(span);
    proof {
        lemma_power_of_ten_below(span as nat);
    }
    let doubled: u128 = 2 * (span as u128);
    let m: u128 = magnitude as u128;
    let interval: u128 = if doubled < 3 * m {
        m
    } else if doubled < 7 * m {
        2 * m
    } else if doubled < 15 * m {
        5 * m
    } else {
        10 * m
    };
    if interval > u64::MAX as u128 {
        u64::MAX
    } else {
        interval as u64
    }
}

/// A tick of the ruler: the time that it marks, and the column where it
/// stands.
#[derive(Debug, Clone, Copy, PartialEq, Eq, Structural)]
pub struct Tick {
    pub time: u64,
    pub column: u16,
}

/// The first multiple of `interval` that is no smaller than `start`.
pub open spec fn first_tick(start: u64, interval: u64) -> int {
    if start % interval == 0 {
        start as int
    } else {
        (start / interval + 1) * interval
    }
}

/// The ticks at `time`, `time + interval` and so on up to `end`, each
/// with its column, those left out whose column lies behind the window.
pub open spec fn ticks_from(
    time: int,
    end: int,
    interval: u64,
    time_start: u64,
    time_span: u64,
    width: u16,
) -> Seq<Tick>
    decreases end - time + interval,
{
    if 0 <= time <= end && end <= u64::MAX && interval > 0 {
        let column = column_of(time as u64, time_start, time_span, width);
        let rest = ticks_from(time + interval, end, interval, time_start, time_span, width);
        if column < width {
            seq![Tick { time: time as u64, column: column as u16 }] + rest
        } else {
            rest
        }
    } else {
        Seq::empty()
    }
}

/// The ticks of the ruler of a window that starts at `time_start`, spans
/// `time_span` and is `width` columns wide: one at every multiple of the
/// tick interval from the start of the window to its end, as far as times
/// go.
pub open spec fn ruler_ticks(time_start: u64, time_span: u64, width: u16) -> Seq<Tick> {
    let interval = if tick_interval(time_span, width as u64) <= u64::MAX {
        tick_interval(time_span, width as u64) as u64
    } else {
        u64::MAX
    };
    let end = if time_start + time_span <= u64::MAX {
        time_start + time_span
    } else {
        u64::MAX as int
    };
    ticks_from(first_tick(time_start, interval), end, interval, time_start, time_span, width)
}

/// Where the label of a tick begins: half its length left of the tick,
/// or at the left edge.
pub open spec fn label_column(column: u16, label_length: int) -> int {
    if column >= label_length / 2 {
        column - label_length / 2
    } else {
        0
    }
}

impl TimeRulerWidget {
    /// The ticks of the ruler above the window of `state`, on a screen
    /// `width` columns wide. Without a trace there is no ruler.
    pub fn ticks(&self, state: &AppState, width: u16) -> (r: Vec<Tick>)
        ensures
            r@ == if state.waveform_data.max_time == 0 {
                Seq::empty()
            } else {
                ruler_ticks(state.time_start, state.time_range, width)
            },
    {
        if state.waveform_data.max_time == 0 {
            return Vec::new();
        }
        ticks_of(state.time_start, state.time_range, width)
    }

    /// The column where the label of a tick begins.
    pub fn label_start(&self, column: u16, label_length: usize) -> (r: u16)
        ensures
            r == label_column(column, label_length as int),
    {
        let half = label_length / 2;
        if column as usize >= half {
            (column as usize - half) as u16
        } else {
            0
        }
    }
}

/// The ticks of the ruler of a window.
pub fn ticks_of(time_start: u64, time_span: u64, width: u16) -> (r: Vec<Tick>)
    ensures
        r@ == ruler_ticks(time_start, time_span, width),
{
    let interval = calculate_tick_interval(time_span, width as u64);
    let end: u128 = if time_span > u64::MAX - time_start {
        u64::MAX as u128
    } else {
        (time_start + time_span) as u128
    };
    let first: u128 = if time_start % interval == 0 {
        time_start as u128
    } else {
        assert((time_start / interval + 1) * interval <= time_start + interval) by (nonlinear_arith)
            requires
                interval > 0,
        ;
        ((time_start / interval) as u128 + 1) * (interval as u128)
    };
    let ghost all = ticks_from(first as int, end as int, interval, time_start, time_span, width);
    let mut ticks: Vec<Tick> = Vec::new();
    let mut time: u128 = first;
    while time <= end
        invariant
            interval >= 1,
            end <= u64::MAX,
            time <= end + interval,
            ticks@ + ticks_from(time as int, end as int, interval, time_start, time_span, width)
                == all,
        decreases end + interval - time,
    {
        let column = time_to_x(time as u64, time_start, time_span, width);
        if column < width {
            let tick = Tick { time: time as u64, column };
            ticks.push(tick);
        }
        time = time + interval as u128;
    }
    ticks
}

} // verus!
