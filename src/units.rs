//! Plain-value geometry: a rational scale factor, exact logical sizes and
//! fixed-point coordinates in thousandths of a logical point.
use vstd::prelude::*;

verus! {

/// Fixed-point quantities in this crate count thousandths of their unit.
pub const MILLI: i64 = 1000;

/// Logical points scrolled per line of a line-based wheel delta.
pub const POINTS_PER_SCROLL_LINE: i64 = 50;

/// Physical pixels per logical point, as the ratio `num / den`.
#[derive(Clone, Copy, Debug, PartialEq, Eq, Structural)]
pub struct Scale {
    pub num: u16,
    pub den: u16,
}

impl Scale {
    pub open spec fn wf(&self) -> bool {
        self.num > 0 && self.den > 0
    }

    /// One pixel per point.
    pub fn identity() -> (r: Scale)
        ensures
            r.num == 1 && r.den == 1,
    {
        Scale { num: 1, den: 1 }
    }

    /// The scale `num / den`, or `None` where either part is zero.
    pub fn from_ratio(num: u16, den: u16) -> (r: Option<Scale>)
        ensures
            r == (if num > 0 && den > 0 {
                Some(Scale { num, den })
            } else {
                None
            }),
    {
        if num > 0 && den > 0 {
            Some(Scale { num, den })
        } else {
            None
        }
    }
}

/// `a / b` rounded to the nearest integer, halves away from zero.
pub open spec fn round_div(a: int, b: int) -> int
    recommends
        b > 0,
{
    (2 * a + b) / (2 * b)
}

/// A size in logical points held exactly: `width_num / den` by `height_num / den`.
#[derive(Clone, Copy, Debug, PartialEq, Eq, Structural)]
pub struct LogicalSize {
    pub width_num: u64,
    pub height_num: u64,
    pub den: u64,
}

impl LogicalSize {
    pub open spec fn wf(&self) -> bool {
        self.den > 0
    }

    /// The physical width this size has at `scale`, rounded to whole pixels.
    pub open spec fn physical_width(&self, scale: Scale) -> int {
        round_div(self.width_num * scale.num, self.den * scale.den)
    }

    /// The physical height this size has at `scale`, rounded to whole pixels.
    pub open spec fn physical_height(&self, scale: Scale) -> int {
        round_div(self.height_num * scale.num, self.den * scale.den)
    }
}

/// A physical size in pixels.
#[derive(Clone, Copy, Debug, PartialEq, Eq, Structural)]
pub struct PhysicalSize {
    pub width: u32,
    pub height: u32,
}

/// Whether `physical` is `logical` at `scale`, rounded to whole pixels.
pub open spec fn sizes_agree(physical: PhysicalSize, logical: LogicalSize, scale: Scale) -> bool {
    &&& logical.wf()
    &&& physical.width == logical.physical_width(scale)
    &&& physical.height == logical.physical_height(scale)
}

proof fn lemma_round_div_exact(x: int, k: int)
    requires
        k > 0,
    ensures
        round_div(x * k, k) == x,
{
    assert(2 * (x * k) + k == x * (2 * k) + k) by (nonlinear_arith);
    vstd::arithmetic::div_mod::lemma_fundamental_div_mod_converse(
        (2 * (x * k) + k) as int,
        (2 * k) as int,
        x as int,
        k as int,
    );
}

/// The physical size of a logical size of whole points at `scale`, together with
/// that logical size held exactly. `None` where the physical size does not fit in
/// `u32` pixels.
pub fn physical_from_logical(width: u32, height: u32, scale: Scale) -> (r: Option<(PhysicalSize, LogicalSize)>)
    requires
        scale.wf(),
    ensures
        r matches Some((p, l)) ==> l == (LogicalSize { width_num: width as u64, height_num: height as u64, den: 1 })
            && sizes_agree(p, l, scale),
        r is None <==> round_div(width * scale.num, scale.den as int) > u32::MAX || round_div(
            height * scale.num,
            scale.den as int,
        ) > u32::MAX,
{
    proof {
        assert(width * scale.num <= 0xffff_ffff * 0xffff) by (nonlinear_arith)
            requires
                width <= 0xffff_ffff,
                scale.num <= 0xffff,
        ;
        assert(height * scale.num <= 0xffff_ffff * 0xffff) by (nonlinear_arith)
            requires
                height <= 0xffff_ffff,
                scale.num <= 0xffff,
        ;
    }
    let d: u64 = 2 * scale.den as u64;
    let w: u64 = (2 * (width as u64 * scale.num as u64) + scale.den as u64) / d;
    let h: u64 = (2 * (height as u64 * scale.num as u64) + scale.den as u64) / d;
    if w > u32::MAX as u64 || h > u32::MAX as u64 {
        return None;
    }
    let logical = LogicalSize { width_num: width as u64, height_num: height as u64, den: 1 };
    proof {
        assert(logical.den * scale.den == scale.den);
    }
    Some((PhysicalSize { width: w as u32, height: h as u32 }, logical))
}

/// The exact logical size of `physical` pixels at `scale`.
pub fn logical_from_physical(physical: PhysicalSize, scale: Scale) -> (r: LogicalSize)
    requires
        scale.wf(),
    ensures
        r.width_num == physical.width * scale.den,
        r.height_num == physical.height * scale.den,
        r.den == scale.num,
        sizes_agree(physical, r, scale),
{
    proof {
        assert(physical.width * scale.den <= 0xffff_ffff * 0xffff) by (nonlinear_arith)
            requires
                physical.width <= 0xffff_ffff,
                scale.den <= 0xffff,
        ;
        assert(physical.height * scale.den <= 0xffff_ffff * 0xffff) by (nonlinear_arith)
            requires
                physical.height <= 0xffff_ffff,
                scale.den <= 0xffff,
        ;
    }
    let r = LogicalSize {
        width_num: physical.width as u64 * scale.den as u64,
        height_num: physical.height as u64 * scale.den as u64,
        den: scale.num as u64,
    };
    proof {
        lemma_size_round_trip(physical, scale);
    }
    r
}

/// A physical size converted to logical points at a scale converts back to the
/// same physical size at that scale.
pub proof fn lemma_size_round_trip(physical: PhysicalSize, scale: Scale)
    requires
        scale.wf(),
    ensures
        sizes_agree(
            physical,
            LogicalSize {
                width_num: (physical.width * scale.den) as u64,
                height_num: (physical.height * scale.den) as u64,
                den: scale.num as u64,
            },
            scale,
        ),
{
    let k = scale.num * scale.den;
    assert(k > 0) by (nonlinear_arith)
        requires
            scale.num > 0,
            scale.den > 0,
            k == scale.num * scale.den,
    ;
    assert(physical.width * scale.den <= 0xffff_ffff * 0xffff) by (nonlinear_arith)
        requires
            physical.width <= 0xffff_ffff,
            scale.den <= 0xffff,
    ;
    assert(physical.height * scale.den <= 0xffff_ffff * 0xffff) by (nonlinear_arith)
        requires
            physical.height <= 0xffff_ffff,
            scale.den <= 0xffff,
    ;
    lemma_round_div_exact(physical.width as int, k);
    lemma_round_div_exact(physical.height as int, k);
    assert(physical.width * scale.den * scale.num == physical.width * k) by (nonlinear_arith)
        requires
            k == scale.num * scale.den,
    ;
    assert(physical.height * scale.den * scale.num == physical.height * k) by (nonlinear_arith)
        requires
            k == scale.num * scale.den,
    ;
    assert(scale.num * scale.den == k);
}

} // verus!
