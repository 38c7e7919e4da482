//! The coordinate buffer of the scatter demo.
//!
//! The demo reads its points from one flat buffer, the coordinates of each
//! point one after the other. The buffer must hold exactly the point count
//! times the components of one point; the native side reads that many values
//! and checks nothing, so the count is derived from the buffer here.
use vstd::prelude::*;
use crate::native::NativeCall;

verus! {

/// How many coordinates make one point.
#[derive(Debug, Clone, Copy, PartialEq, Eq, Structural)]
pub enum PointLayout {
    /// `x, y`
    Planar,
    /// `x, y, z`
    Spatial,
}

impl PointLayout {
    pub open spec fn spec_components(self) -> nat {
        match self {
            PointLayout::Planar => 2,
            PointLayout::Spatial => 3,
        }
    }

    /// The number of coordinates of one point.
    pub fn components(&self) -> (r: usize)
        ensures
            r == self.spec_components(),
    {
        match self {
            PointLayout::Planar => 2,
            PointLayout::Spatial => 3,
        }
    }
}

/// The number of points that a buffer of `buffer_len` coordinates holds, when
/// it holds whole points only and their count fits the native count type.
pub open spec fn spec_point_count(buffer_len: nat, layout: PointLayout) -> Option<int> {
    let c = layout.spec_components();
    if buffer_len % c == 0 && buffer_len / c <= i32::MAX {
        Some((buffer_len / c) as int)
    } else {
        None
    }
}

/// The length of the buffer that holds `point_count` points: `None` when
/// the count is negative or the length does not fit in `usize`.
pub fn buffer_len(point_count: i32, layout: PointLayout) -> (r: Option<usize>)
    ensures
        r matches Some(n) <==> 0 <= point_count && point_count * layout.spec_components()
            <= usize::MAX,
        r matches Some(n) ==> n == point_count * layout.spec_components(),
{
    if point_count < 0 {
        return None;
    }
    (point_count as usize).checked_mul(layout.components())
}

/// The demo call that draws the points of a buffer of `buffer_len`
/// coordinates: `None` when the buffer does not hold whole points, or holds
/// more than the native count type can say.
pub fn scatter_call(buffer_len: usize, layout: PointLayout) -> (r: Option<NativeCall>)
    ensures
        r == (match spec_point_count(buffer_len as nat, layout) {
            Some(p) => Some(NativeCall::DemoScatter { point_count: p as i32 }),
            None => None,
        }),
        r matches Some(NativeCall::DemoScatter { point_count }) ==> point_count
            * layout.spec_components() == buffer_len,
{
    let c = layout.components();
    if buffer_len % c != 0 {
        return None;
    }
    let points = buffer_len / c;
    if points > i32::MAX as usize {
        return None;
    }
    Some(NativeCall::DemoScatter { point_count: points as i32 })
}

/// A buffer sized by `buffer_len` for a count of points is drawn as exactly
/// that many points.
pub proof fn lemma_buffer_holds_its_points(point_count: int, layout: PointLayout)
    requires
        0 <= point_count <= i32::MAX,
    ensures
        spec_point_count((point_count * layout.spec_components()) as nat, layout) == Some(
            point_count,
        ),
{
    let c = layout.spec_components() as int;
    assert((point_count * c) % c == 0 && (point_count * c) / c == point_count) by (nonlinear_arith)
        requires
            c > 0,
    ;
}

} // verus!
