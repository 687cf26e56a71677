//! The render-loop value mapping: from a utilization snapshot to exact bar
//! geometry in clip space.
//!
//! Coordinates are modeled as integers so that every formula is exact:
//! - Utilization is in basis points: `0` is 0%, `FULL_SCALE_BP` is 100%.
//! - A vertical clip coordinate `y` is carried as `y * Y_SCALE` (an `i32`),
//!   so `-0.8` is `-8000` and `0.2` is `2000`.
//! - A horizontal clip coordinate is carried as a numerator `u` over the
//!   layout's denominator `denom`: the clip coordinate is `2*u/denom - 1`.

use vstd::prelude::*;

verus! {

/// 100% utilization, in basis points (hundredths of a percent).
pub const FULL_SCALE_BP: u32 = 10000;

/// Scale of vertical clip coordinates: a stored `y` means `y / Y_SCALE`.
pub const Y_SCALE: i32 = 10000;

/// Vertical position of a bar's bottom edge (clip `-0.8`): where 0% draws.
pub const BASELINE_Y: i32 = -8000;

/// Vertical position a bar's top edge reaches at 100% (clip `0.2`).
pub const APEX_Y: i32 = 2000;

/// Vertical position of a quad's top edge before the per-frame offset is
/// applied (clip `-0.7`): the resting footprint of every bar.
pub const FOOT_TOP_Y: i32 = -7000;

/// One rectangle of the bar chart, as the four corners of a triangle strip.
/// `x0_units`/`x1_units` are numerators over the layout denominator;
/// `y_top`/`y_bot` are scaled by `Y_SCALE`.
#[derive(Clone, Copy, PartialEq, Eq, Structural, Debug)]
pub struct BarQuad {
    pub x0_units: u32,
    pub x1_units: u32,
    pub y_top: i32,
    pub y_bot: i32,
}

/// The quad that sits `idx` slot units from the left edge: it spans one unit
/// horizontally, starting one unit in, and rests on the baseline band.
pub open spec fn quad_spec(idx: u32) -> BarQuad {
    BarQuad {
        x0_units: (1 + idx) as u32,
        x1_units: (2 + idx) as u32,
        y_top: FOOT_TOP_Y,
        y_bot: BASELINE_Y,
    }
}

/// Builds the resting quad `idx` slot units from the left edge.
pub fn make_bar(idx: u32) -> (q: BarQuad)
    requires
        idx + 2 <= u32::MAX,
    ensures
        q == quad_spec(idx),
{
    BarQuad { x0_units: 1 + idx, x1_units: 2 + idx, y_top: FOOT_TOP_Y, y_bot: BASELINE_Y }
}

/// The static geometry of a bar chart for `len` cores: `len + 1` quads and
/// the denominator that turns slot units into clip coordinates.
pub struct BarLayout {
    pub denom: u32,
    pub quads: Vec<BarQuad>,
}

impl BarLayout {
    /// A layout is well formed when it holds one quad more than the core
    /// count it was built for, every quad standing two slot units after the
    /// previous one, and the denominator divides the width into twice
    /// (core count + 1) units.
    pub open spec fn wf_for(&self, len: u32) -> bool {
        &&& self.denom == 2 * (len + 1)
        &&& self.quads@.len() == len + 1
        &&& forall|i: int| 0 <= i < self.quads@.len() ==> self.quads@[i] == quad_spec((2 * i) as u32)
    }
}

/// Builds the chart geometry for `len` cores: quads at slot units
/// 0, 2, 4, ..., one more quad than there are cores.
pub fn make_bars(len: u16) -> (layout: BarLayout)
    ensures
        layout.wf_for(len as u32),
{
    let denom: u32 = 2 * (len as u32 + 1);
    let mut quads: Vec<BarQuad> = Vec::new();
    let mut i: u32 = 0;
    while i <= len as u32
        invariant
            i <= len as u32 + 1,
            quads@.len() == i,
            forall|j: int| 0 <= j < i ==> quads@[j] == quad_spec((2 * j) as u32),
        decreases len as u32 + 1 - i,
    {
        quads.push(make_bar(2 * i));
        i = i + 1;
    }
    BarLayout { denom, quads }
}

/// A reported utilization clamped to the valid range: values above 100%
/// (possible with a faulty provider) are pinned to full scale.
pub open spec fn clamped_bp(u: u32) -> int {
    if u > FULL_SCALE_BP {
        FULL_SCALE_BP as int
    } else {
        u as int
    }
}

/// Where a bar's top edge lands for utilization `u`: 0% is the baseline,
/// 100% the apex, linear in between, clamped beyond.
pub open spec fn top_of(u: u32) -> int {
    clamped_bp(u) + BASELINE_Y
}

/// Maps one utilization reading to the vertical position of its bar's top
/// edge: linear from the baseline at 0% to the apex at 100%, clamped at the
/// apex for out-of-range readings.
pub fn bar_top(u: u32) -> (y: i32)
    ensures
        y == top_of(u),
        BASELINE_Y <= y <= APEX_Y,
        u == 0 ==> y == BASELINE_Y,
        u >= FULL_SCALE_BP ==> y == APEX_Y,
        u <= FULL_SCALE_BP ==> y - BASELINE_Y == u,
{
    let clamped: u32 = if u > FULL_SCALE_BP {
        FULL_SCALE_BP
    } else {
        u
    };
    clamped as i32 + BASELINE_Y
}

/// The whole frame as a pure function of the snapshot: the top edge of each
/// core's bar, in snapshot order.
pub open spec fn frame_spec(snapshot: Seq<u32>) -> Seq<int> {
    Seq::new(snapshot.len(), |i: int| top_of(snapshot[i]))
}

/// Maps a snapshot to the per-core top edges submitted for one frame.
pub fn frame_tops(snapshot: &Vec<u32>) -> (tops: Vec<i32>)
    ensures
        tops@.len() == snapshot@.len(),
        forall|i: int| 0 <= i < tops@.len() ==> tops@[i] == frame_spec(snapshot@)[i],
        forall|i: int| 0 <= i < tops@.len() ==> BASELINE_Y <= #[trigger] tops@[i] <= APEX_Y,
{
    let mut tops: Vec<i32> = Vec::new();
    let mut i: usize = 0;
    while i < snapshot.len()
        invariant
            i <= snapshot@.len(),
            tops@.len() == i,
            forall|j: int| 0 <= j < i ==> tops@[j] == frame_spec(snapshot@)[j],
            forall|j: int| 0 <= j < i ==> BASELINE_Y <= #[trigger] tops@[j] <= APEX_Y,
        decreases snapshot@.len() - i,
    {
        tops.push(bar_top(snapshot[i]));
        i = i + 1;
    }
    tops
}

/// Law: the frame is a pure function of the snapshot — rendering the same
/// snapshot twice yields the same visual output, with no hidden
/// frame-to-frame state.
pub proof fn lemma_frame_deterministic(s1: Seq<u32>, s2: Seq<u32>)
    requires
        s1 == s2,
    ensures
        frame_spec(s1) == frame_spec(s2),
{
}

} // verus!
