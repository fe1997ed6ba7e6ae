//! Fit-and-center: the largest size at which a picture fits into a container
//! without changing its proportions, and the place that centers it there.

use crate::rational::{lemma_ratio_is_its_view, Ratio, Rational};
use vstd::prelude::*;

verus! {

/// A width and a height in whole units.
#[derive(Clone, Copy, Debug, PartialEq, Eq, Structural)]
pub struct Size {
    pub width: u32,
    pub height: u32,
}

impl Size {
    /// Whether one of the two sides is zero.
    pub open spec fn is_empty(self) -> bool {
        self.width == 0 || self.height == 0
    }
}

/// The part of the container that a contained size may take up: `num / den`,
/// a fraction above zero and at most one.
#[derive(Clone, Copy, Debug, PartialEq, Eq, Structural)]
pub struct MarginFactor {
    pub num: u32,
    pub den: u32,
}

impl View for MarginFactor {
    type V = Rational;

    open spec fn view(&self) -> Rational {
        Rational::of(self.num as int, self.den as int)
    }
}

impl MarginFactor {
    /// Whether the factor is above zero and at most one.
    pub open spec fn is_valid(self) -> bool {
        0 < self.num <= self.den
    }

    /// The factor one, as a specification value.
    pub open spec fn spec_exact() -> MarginFactor {
        MarginFactor { num: 1, den: 1 }
    }

    /// The factor one: the contained size touches the container.
    #[verifier::when_used_as_spec(spec_exact)]
    pub fn exact() -> (m: MarginFactor)
        ensures
            m == MarginFactor::spec_exact(),
            m.is_valid(),
    {
        MarginFactor { num: 1, den: 1 }
    }

    /// The factor nine tenths: the contained size leaves a tenth of the
    /// container free along the side that it would touch.
    pub fn nine_tenths() -> (m: MarginFactor)
        ensures
            m == (MarginFactor { num: 9, den: 10 }),
            m.is_valid(),
    {
        MarginFactor { num: 9, den: 10 }
    }
}

/// Why no layout was computed.
#[derive(Clone, Copy, Debug, PartialEq, Eq, Structural)]
pub enum FitError {
    /// The content has a side of length zero.
    EmptyContent,
    /// The container has a side of length zero.
    EmptyContainer,
    /// The margin factor is zero, above one, or has a zero denominator.
    InvalidMargin,
}

/// A width and a height as exact fractions.
#[derive(Clone, Copy, Debug)]
pub struct Extent {
    pub width: Ratio,
    pub height: Ratio,
}

/// A distance from the container's left edge and one from its top edge.
#[derive(Clone, Copy, Debug)]
pub struct Offset {
    pub x: Ratio,
    pub y: Ratio,
}

/// Where the content goes: its size and the offset of its top left corner.
#[derive(Clone, Copy, Debug)]
pub struct Placement {
    pub size: Extent,
    pub offset: Offset,
}

/// The error that the three inputs call for, the content's first, then the
/// container's, then the margin's; `None` where a layout exists.
pub open spec fn fit_error(content: Size, container: Size, margin: MarginFactor) -> Option<
    FitError,
> {
    if content.is_empty() {
        Some(FitError::EmptyContent)
    } else if container.is_empty() {
        Some(FitError::EmptyContainer)
    } else if !margin.is_valid() {
        Some(FitError::InvalidMargin)
    } else {
        None
    }
}

/// Whether the content meets the container along its width: whether the
/// quotient of the widths is at most the quotient of the heights.
pub open spec fn width_binds(content: Size, container: Size) -> bool {
    container.width * content.height <= container.height * content.width
}

/// The uniform scale that makes the content as large as the container
/// allows: the smaller of the two quotients of the widths and of the heights.
pub open spec fn fit_scale(content: Size, container: Size) -> Rational {
    if width_binds(content, container) {
        Rational::of(container.width as int, content.width as int)
    } else {
        Rational::of(container.height as int, content.height as int)
    }
}

/// The width of the content at the fitting scale, times the margin factor.
pub open spec fn contained_width(content: Size, container: Size, margin: MarginFactor) -> Rational {
    let scale = fit_scale(content, container);
    Rational::of(content.width * scale.num * margin.num, scale.den * margin.den)
}

/// The height of the content at the fitting scale, times the margin factor.
pub open spec fn contained_height(content: Size, container: Size, margin: MarginFactor)
    -> Rational {
    let scale = fit_scale(content, container);
    Rational::of(content.height * scale.num * margin.num, scale.den * margin.den)
}

/// Half of what `inner` leaves of `outer`: the offset that centers it.
pub open spec fn centering(outer: int, inner: Rational) -> Rational {
    Rational::of(outer * inner.den - inner.num, 2 * inner.den)
}

/// Whether `e` is the contained size of `content` in `container`.
pub open spec fn is_contained_size(
    e: Extent,
    content: Size,
    container: Size,
    margin: MarginFactor,
) -> bool {
    &&& e.width@ == contained_width(content, container, margin)
    &&& e.height@ == contained_height(content, container, margin)
}

/// Whether `p` holds the contained size of `content` in `container` and the
/// offsets that center it there.
pub open spec fn is_placement(
    p: Placement,
    content: Size,
    container: Size,
    margin: MarginFactor,
) -> bool {
    &&& is_contained_size(p.size, content, container, margin)
    &&& p.offset.x@ == centering(
        container.width as int,
        contained_width(content, container, margin),
    )
    &&& p.offset.y@ == centering(
        container.height as int,
        contained_height(content, container, margin),
    )
}

/// Whether the size is no wider and no higher than the container.
pub open spec fn fits_inside(size: Extent, container: Size) -> bool {
    &&& size.width@.le(Rational::whole(container.width as int))
    &&& size.height@.le(Rational::whole(container.height as int))
}

/// Whether the size is as wide as the container or as high.
pub open spec fn touches(size: Extent, container: Size) -> bool {
    ||| size.width@.same(Rational::whole(container.width as int))
    ||| size.height@.same(Rational::whole(container.height as int))
}

/// Whether the size has the proportions of the content: whether its width
/// times the content's height is its height times the content's width.
pub open spec fn keeps_proportions(size: Extent, content: Size) -> bool {
    size.width@.times(Rational::whole(content.height as int)).same(
        size.height@.times(Rational::whole(content.width as int)),
    )
}

/// Whether the offsets are not negative and leave as much of the container
/// free after the size as before it: whether twice the offset plus the size
/// is the container's size, along each axis.
pub open spec fn is_centered(p: Placement, container: Size) -> bool {
    &&& p.offset.x@.num >= 0
    &&& p.offset.y@.num >= 0
    &&& p.offset.x@.plus(p.offset.x@).plus(p.size.width@).same(
        Rational::whole(container.width as int),
    )
    &&& p.offset.y@.plus(p.offset.y@).plus(p.size.height@).same(
        Rational::whole(container.height as int),
    )
}

/// The fitting scale is the smaller of the quotient of the widths and the
/// quotient of the heights.
pub proof fn lemma_fit_scale_is_smaller_quotient(content: Size, container: Size)
    ensures
        fit_scale(content, container) == Rational::of(
            container.width as int,
            content.width as int,
        ).min(Rational::of(container.height as int, content.height as int)),
{
}

/// The contained size is the content's size times the fitting scale times the
/// margin factor.
pub proof fn lemma_contained_size_is_scaled_content(
    content: Size,
    container: Size,
    margin: MarginFactor,
)
    ensures
        contained_width(content, container, margin).same(
            Rational::whole(content.width as int).times(fit_scale(content, container)).times(
                margin@,
            ),
        ),
        contained_height(content, container, margin).same(
            Rational::whole(content.height as int).times(fit_scale(content, container)).times(
                margin@,
            ),
        ),
{
    let s = fit_scale(content, container);
    let w = content.width as int;
    let h = content.height as int;
    let p = margin.num as int;
    let q = margin.den as int;
    assert((w * s.num * p) * ((1 * s.den) * q) == ((w * s.num) * p) * (s.den * q))
        by (nonlinear_arith);
    assert((h * s.num * p) * ((1 * s.den) * q) == ((h * s.num) * p) * (s.den * q))
        by (nonlinear_arith);
}

/// The centering offset is half of the difference of `outer` and `inner`.
pub proof fn lemma_centering_is_half_the_rest(outer: int, inner: Rational)
    ensures
        centering(outer, inner) == Rational::whole(outer).minus(inner).halved(),
{
}

/// The contained size is no wider and no higher than the container.
pub proof fn lemma_contained_size_fits(content: Size, container: Size, margin: MarginFactor)
    requires
        fit_error(content, container, margin) is None,
    ensures
        contained_width(content, container, margin).is_proper(),
        contained_height(content, container, margin).is_proper(),
        contained_width(content, container, margin).le(Rational::whole(container.width as int)),
        contained_height(content, container, margin).le(Rational::whole(container.height as int)),
{
    let w = content.width as int;
    let h = content.height as int;
    let cw = container.width as int;
    let ch = container.height as int;
    let p = margin.num as int;
    let q = margin.den as int;
    if width_binds(content, container) {
        assert(w * q > 0 && (w * cw * p) * 1 <= cw * (w * q) && (h * cw * p) * 1 <= ch * (w * q))
            by (nonlinear_arith)
            requires
                w > 0,
                h > 0,
                cw > 0,
                ch > 0,
                0 < p <= q,
                cw * h <= ch * w,
        ;
    } else {
        assert(h * q > 0 && (w * ch * p) * 1 <= cw * (h * q) && (h * ch * p) * 1 <= ch * (h * q))
            by (nonlinear_arith)
            requires
                w > 0,
                h > 0,
                cw > 0,
                ch > 0,
                0 < p <= q,
                ch * w < cw * h,
        ;
    }
}

/// The contained size is the margin factor's share of the container's width
/// or of its height: at margin factor one it is as wide as the container or
/// as high.
pub proof fn lemma_contained_size_is_maximal(content: Size, container: Size, margin: MarginFactor)
    requires
        fit_error(content, container, margin) is None,
    ensures
        contained_width(content, container, margin).same(
            Rational::whole(container.width as int).times(margin@),
        ) || contained_height(content, container, margin).same(
            Rational::whole(container.height as int).times(margin@),
        ),
        margin == MarginFactor::exact() ==> contained_width(content, container, margin).same(
            Rational::whole(container.width as int),
        ) || contained_height(content, container, margin).same(
            Rational::whole(container.height as int),
        ),
{
    let w = content.width as int;
    let h = content.height as int;
    let cw = container.width as int;
    let ch = container.height as int;
    let p = margin.num as int;
    let q = margin.den as int;
    if width_binds(content, container) {
        assert((w * cw * p) * (1 * q) == (cw * p) * (w * q)) by (nonlinear_arith);
        if margin == MarginFactor::exact() {
            assert((w * cw * 1) * 1 == cw * (w * 1)) by (nonlinear_arith);
        }
    } else {
        assert((h * ch * p) * (1 * q) == (ch * p) * (h * q)) by (nonlinear_arith);
        if margin == MarginFactor::exact() {
            assert((h * ch * 1) * 1 == ch * (h * 1)) by (nonlinear_arith);
        }
    }
}

/// The contained size has the proportions of the content: its width times the
/// content's height is its height times the content's width.
pub proof fn lemma_aspect_ratio_is_kept(content: Size, container: Size, margin: MarginFactor)
    ensures
        contained_width(content, container, margin).times(
            Rational::whole(content.height as int),
        ).same(
            contained_height(content, container, margin).times(
                Rational::whole(content.width as int),
            ),
        ),
{
    let w = content.width as int;
    let h = content.height as int;
    let s = fit_scale(content, container);
    let p = margin.num as int;
    let q = margin.den as int;
    assert(((w * s.num * p) * h) * ((s.den * q) * 1) == ((h * s.num * p) * w) * ((s.den * q) * 1))
        by (nonlinear_arith);
}

/// Twice the centering offset of `inner` in `outer`, plus `inner`, is `outer`,
/// and the offset is not negative where `inner` is at most `outer`.
pub proof fn lemma_centering_adds_up(outer: int, inner: Rational)
    requires
        inner.is_proper(),
        inner.le(Rational::whole(outer)),
    ensures
        centering(outer, inner).is_proper(),
        centering(outer, inner).num >= 0,
        centering(outer, inner).plus(centering(outer, inner)).plus(inner).same(
            Rational::whole(outer),
        ),
{
    let n = inner.num;
    let d = inner.den;
    let c = centering(outer, inner);
    assert(((c.num * c.den + c.num * c.den) * d + n * (c.den * c.den)) * 1 == outer * ((c.den
        * c.den) * d)) by (nonlinear_arith)
        requires
            c.num == outer * d - n,
            c.den == 2 * d,
    ;
}

/// The centering offsets of the contained size are not negative, and twice
/// the offset plus the contained size is the container's size, along each
/// axis.
pub proof fn lemma_placement_is_centered(content: Size, container: Size, margin: MarginFactor)
    requires
        fit_error(content, container, margin) is None,
    ensures
        ({
            let width = contained_width(content, container, margin);
            let x = centering(container.width as int, width);
            &&& x.is_proper()
            &&& x.num >= 0
            &&& x.plus(x).plus(width).same(Rational::whole(container.width as int))
        }),
        ({
            let height = contained_height(content, container, margin);
            let y = centering(container.height as int, height);
            &&& y.is_proper()
            &&& y.num >= 0
            &&& y.plus(y).plus(height).same(Rational::whole(container.height as int))
        }),
{
    lemma_contained_size_fits(content, container, margin);
    lemma_centering_adds_up(
        container.width as int,
        contained_width(content, container, margin),
    );
    lemma_centering_adds_up(
        container.height as int,
        contained_height(content, container, margin),
    );
}

/// The placement is a function of the content, the container and the margin
/// factor: two placements for the same three are the same placement.
pub proof fn lemma_placement_is_unique(
    first: Placement,
    second: Placement,
    content: Size,
    container: Size,
    margin: MarginFactor,
)
    requires
        is_placement(first, content, container, margin),
        is_placement(second, content, container, margin),
    ensures
        first == second,
{
    lemma_ratio_is_its_view(first.size.width, second.size.width);
    lemma_ratio_is_its_view(first.size.height, second.size.height);
    lemma_ratio_is_its_view(first.offset.x, second.offset.x);
    lemma_ratio_is_its_view(first.offset.y, second.offset.y);
}

/// A placement of the content in the container fits inside the container,
/// has the content's proportions and is centered; at margin factor one it
/// touches the container.
pub proof fn lemma_placement_is_fitted(
    p: Placement,
    content: Size,
    container: Size,
    margin: MarginFactor,
)
    requires
        fit_error(content, container, margin) is None,
        is_placement(p, content, container, margin),
    ensures
        fits_inside(p.size, container),
        keeps_proportions(p.size, content),
        is_centered(p, container),
        margin == MarginFactor::exact() ==> touches(p.size, container),
{
    lemma_contained_size_fits(content, container, margin);
    lemma_contained_size_is_maximal(content, container, margin);
    lemma_aspect_ratio_is_kept(content, container, margin);
    lemma_placement_is_centered(content, container, margin);
}

/// The product of two `u32` values fits in a `u64`.
proof fn lemma_product_fits_u64(a: u32, b: u32)
    ensures
        a * b <= 0xFFFF_FFFE_0000_0001,
{
    assert(a * b <= 0xFFFF_FFFF * 0xFFFF_FFFF) by (nonlinear_arith)
        requires
            0 <= a <= 0xFFFF_FFFF,
            0 <= b <= 0xFFFF_FFFF,
    ;
}

/// The product of a `u64` value and a `u32` value fits in a `u128`, twice over.
proof fn lemma_product_fits_u128(a: u64, b: u32)
    ensures
        2 * (a * b) <= 0x2_0000_0000_0000_0000_0000_0000,
{
    assert(a * b <= 0xFFFF_FFFF_FFFF_FFFF * 0xFFFF_FFFF) by (nonlinear_arith)
        requires
            0 <= a <= 0xFFFF_FFFF_FFFF_FFFF,
            0 <= b <= 0xFFFF_FFFF,
    ;
}

/// The numerator and the denominator of the contained size stay within the
/// bounds that the centering arithmetic needs.
proof fn lemma_contained_size_is_bounded(content: Size, container: Size, margin: MarginFactor)
    requires
        fit_error(content, container, margin) is None,
    ensures
        contained_width(content, container, margin).num <= 0xFFFF_FFFF_FFFF_FFFF_FFFF_FFFF,
        contained_width(content, container, margin).den <= 0xFFFF_FFFF_FFFF_FFFF,
        contained_height(content, container, margin).num <= 0xFFFF_FFFF_FFFF_FFFF_FFFF_FFFF,
        contained_height(content, container, margin).den <= 0xFFFF_FFFF_FFFF_FFFF,
{
    let s = fit_scale(content, container);
    let w = content.width as int;
    let h = content.height as int;
    let p = margin.num as int;
    let q = margin.den as int;
    assert(0 < s.num <= 0xFFFF_FFFF && 0 < s.den <= 0xFFFF_FFFF);
    assert(w * s.num * p <= 0xFFFF_FFFF_FFFF_FFFF_FFFF_FFFF && h * s.num * p
        <= 0xFFFF_FFFF_FFFF_FFFF_FFFF_FFFF && s.den * q <= 0xFFFF_FFFF_FFFF_FFFF)
        by (nonlinear_arith)
        requires
            0 < w <= 0xFFFF_FFFF,
            0 < h <= 0xFFFF_FFFF,
            0 < p <= 0xFFFF_FFFF,
            0 < q <= 0xFFFF_FFFF,
            0 < s.num <= 0xFFFF_FFFF,
            0 < s.den <= 0xFFFF_FFFF,
    ;
}

/// The error that `fit_error` names for the three inputs, if it names one.
fn check_inputs(content: Size, container: Size, margin: MarginFactor) -> (r: Result<(), FitError>)
    ensures
        r is Ok <==> fit_error(content, container, margin) is None,
        r matches Err(e) ==> fit_error(content, container, margin) == Some(e),
{
    if content.width == 0 || content.height == 0 {
        Err(FitError::EmptyContent)
    } else if container.width == 0 || container.height == 0 {
        Err(FitError::EmptyContainer)
    } else if margin.num == 0 || margin.num > margin.den {
        Err(FitError::InvalidMargin)
    } else {
        Ok(())
    }
}

/// The fitting scale as its numerator and its denominator.
fn scale_parts(content: Size, container: Size) -> (r: (u32, u32))
    ensures
        r.0 == fit_scale(content, container).num,
        r.1 == fit_scale(content, container).den,
{
    proof {
        lemma_product_fits_u64(container.width, content.height);
        lemma_product_fits_u64(container.height, content.width);
    }
    let across: u64 = (container.width as u64) * (content.height as u64);
    let down: u64 = (container.height as u64) * (content.width as u64);
    if across <= down {
        (container.width, content.width)
    } else {
        (container.height, content.height)
    }
}

/// The scale at which the content fits the available space: the smaller of
/// `available.width / content.width` and `available.height / content.height`.
///
/// Fails on an empty content or an empty space.
pub fn compute_scale(content: Size, available: Size) -> (r: Result<Ratio, FitError>)
    ensures
        r is Ok <==> !content.is_empty() && !available.is_empty(),
        r matches Ok(scale) ==> scale@ == fit_scale(content, available),
        r matches Err(e) ==> fit_error(content, available, MarginFactor::exact()) == Some(e),
{
    match check_inputs(content, available, MarginFactor::exact()) {
        Err(e) => Err(e),
        Ok(_) => {
            let (num, den): (u32, u32) = scale_parts(content, available);
            Ok(Ratio::new(num as u128, den as u128).unwrap())
        },
    }
}

/// One side of the contained size: `side * (num / den)` times the margin
/// factor.
fn scaled_side(side: u32, num: u32, den: u32, margin: MarginFactor) -> (r: Ratio)
    requires
        den > 0,
        margin.den > 0,
    ensures
        r@ == Rational::of(side * num * margin.num, den * margin.den),
{
    proof {
        lemma_product_fits_u64(side, num);
        lemma_product_fits_u64(den, margin.den);
        lemma_product_fits_u128(((side as u64) * (num as u64)) as u64, margin.num);
        assert(den * margin.den > 0) by (nonlinear_arith)
            requires
                den > 0,
                margin.den > 0,
        ;
    }
    let grown: u64 = (side as u64) * (num as u64);
    let top: u128 = (grown as u128) * (margin.num as u128);
    let bottom: u64 = (den as u64) * (margin.den as u64);
    Ratio::new(top, bottom as u128).unwrap()
}

/// The largest size with the content's proportions that fits into the
/// container, times the margin factor.
///
/// Fails on an empty content, an empty container or a margin factor that is
/// not above zero and at most one, in that order.
pub fn compute_contained_size(content: Size, container: Size, margin: MarginFactor) -> (r: Result<
    Extent,
    FitError,
>)
    ensures
        r is Ok <==> fit_error(content, container, margin) is None,
        r matches Ok(e) ==> is_contained_size(e, content, container, margin),
        r matches Ok(e) ==> fits_inside(e, container) && keeps_proportions(e, content),
        r matches Err(e) ==> fit_error(content, container, margin) == Some(e),
{
    match check_inputs(content, container, margin) {
        Err(e) => Err(e),
        Ok(_) => {
            let (num, den): (u32, u32) = scale_parts(content, container);
            let width = scaled_side(content.width, num, den, margin);
            let height = scaled_side(content.height, num, den, margin);
            proof {
                lemma_contained_size_fits(content, container, margin);
                lemma_aspect_ratio_is_kept(content, container, margin);
            }
            Ok(Extent { width, height })
        },
    }
}

/// The offset that centers `inner` along a side of length `outer`.
fn center_within(outer: u32, inner: Ratio) -> (r: Ratio)
    requires
        inner@.le(Rational::whole(outer as int)),
        inner@.num <= 0xFFFF_FFFF_FFFF_FFFF_FFFF_FFFF,
        inner@.den <= 0xFFFF_FFFF_FFFF_FFFF,
    ensures
        r@ == centering(outer as int, inner@),
{
    let num: u128 = inner.numer();
    let den: u128 = inner.denom();
    proof {
        lemma_product_fits_u128(den as u64, outer);
        assert(outer * den == den * outer) by (nonlinear_arith);
    }
    let whole: u128 = (outer as u128) * den;
    Ratio::new(whole - num, 2 * den).unwrap()
}

/// The contained size of the content in the container and the offset that
/// centers it there.
///
/// Fails as `compute_contained_size` does.
pub fn compute_placement(content: Size, container: Size, margin: MarginFactor) -> (r: Result<
    Placement,
    FitError,
>)
    ensures
        r is Ok <==> fit_error(content, container, margin) is None,
        r matches Ok(p) ==> is_placement(p, content, container, margin),
        r matches Ok(p) ==> fits_inside(p.size, container),
        r matches Ok(p) ==> keeps_proportions(p.size, content),
        r matches Ok(p) ==> is_centered(p, container),
        r matches Err(e) ==> fit_error(content, container, margin) == Some(e),
{
    match compute_contained_size(content, container, margin) {
        Err(e) => Err(e),
        Ok(size) => {
            proof {
                lemma_contained_size_fits(content, container, margin);
                lemma_contained_size_is_bounded(content, container, margin);
            }
            let x = center_within(container.width, size.width);
            let y = center_within(container.height, size.height);
            let placement = Placement { size, offset: Offset { x, y } };
            proof {
                lemma_placement_is_fitted(placement, content, container, margin);
            }
            Ok(placement)
        },
    }
}

/// Where to draw the content in the available space: as large as fits with
/// its proportions kept, and centered.
///
/// Fails on an empty content or an empty space.
pub fn compute_fit(content: Size, available: Size) -> (r: Result<Placement, FitError>)
    ensures
        r is Ok <==> !content.is_empty() && !available.is_empty(),
        r matches Ok(p) ==> is_placement(p, content, available, MarginFactor::exact()),
        r matches Ok(p) ==> fits_inside(p.size, available) && touches(p.size, available),
        r matches Ok(p) ==> keeps_proportions(p.size, content),
        r matches Ok(p) ==> is_centered(p, available),
        r matches Err(e) ==> fit_error(content, available, MarginFactor::exact()) == Some(e),
{
    let r = compute_placement(content, available, MarginFactor::exact());
    proof {
        if let Ok(p) = r {
            lemma_placement_is_fitted(p, content, available, MarginFactor::exact());
        }
    }
    r
}

} // verus!
