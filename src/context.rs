//! A drawing context for tweened polygons: transform, color and animation
//! state, derived by functional update, and the decision a fill makes.
use vstd::prelude::*;

verus! {

/// An animation inbetweening context with color. `M` is the transform
/// type, `C` the color, `F` the tween factor and `P` a handle to the
/// animated polygons.
#[derive(Copy, Debug)]
pub struct TweenPolygonsColorContext<M, C, F, P> {
    /// Base/origin transform.
    pub base: M,
    /// Current transform.
    pub transform: M,
    /// Current color.
    pub color: C,
    /// Animation inbetweening factor.
    pub tween_factor: F,
    /// The animated polygons.
    pub polygons: P,
}

impl<M: Copy, C: Copy, F: Copy, P: Copy> Clone for TweenPolygonsColorContext<M, C, F, P> {
    fn clone(&self) -> (r: Self)
        ensures
            r == *self,
    {
        *self
    }
}

impl<M: Copy, C: Copy, F: Copy, P: Copy> TweenPolygonsColorContext<M, C, F, P> {
    /// The current color.
    pub fn get_color(&self) -> (r: &C)
        ensures
            *r == self.color,
    {
        &self.color
    }

    /// A context like this one with color `value`.
    pub fn color(&self, value: C) -> (r: Self)
        ensures
            r == (Self { color: value, ..*self }),
    {
        TweenPolygonsColorContext { color: value, ..*self }
    }

    /// The current transform.
    pub fn get_transform(&self) -> (r: &M)
        ensures
            *r == self.transform,
    {
        &self.transform
    }

    /// A context like this one with transform `value`.
    pub fn transform(&self, value: M) -> (r: Self)
        ensures
            r == (Self { transform: value, ..*self }),
    {
        TweenPolygonsColorContext { transform: value, ..*self }
    }

    /// A context like this one whose transform is back at the base.
    pub fn view(&self) -> (r: Self)
        ensures
            r == (Self { transform: self.base, ..*self }),
    {
        TweenPolygonsColorContext { transform: self.base, ..*self }
    }

    /// A context like this one whose transform is `identity`, the identity
    /// of the transform type.
    pub fn reset(&self, identity: M) -> (r: Self)
        ensures
            r == (Self { transform: identity, ..*self }),
    {
        TweenPolygonsColorContext { transform: identity, ..*self }
    }

    /// A context like this one whose base is its current transform.
    pub fn store_view(&self) -> (r: Self)
        ensures
            r == (Self { base: self.transform, ..*self }),
    {
        TweenPolygonsColorContext { base: self.transform, ..*self }
    }
}

/// How opaque a color is, by its alpha channel.
#[derive(Clone, Copy, Debug, PartialEq, Eq, Structural)]
pub enum Opacity {
    /// Alpha is zero.
    Transparent,
    /// Alpha is neither zero nor one.
    Translucent,
    /// Alpha is one.
    Opaque,
}

/// What a fill does with a back-end.
#[derive(Clone, Copy, Debug, PartialEq, Eq, Structural)]
pub enum FillPlan {
    /// The back-end cannot draw colored triangle lists; there is no other
    /// way to fill.
    Unsupported,
    /// Nothing is drawn.
    Skip,
    /// The polygons are tessellated and drawn, with alpha blending switched
    /// on around the drawing where `blend` holds.
    Draw { blend: bool },
}

/// The fill decision: a back-end without colored triangle lists cannot
/// fill; a fully transparent color draws nothing; otherwise the shape is
/// drawn, blended unless the color is fully opaque.
pub fn fill_plan(supports_tri_list: bool, opacity: Opacity) -> (r: FillPlan)
    ensures
        !supports_tri_list ==> r == FillPlan::Unsupported,
        supports_tri_list && opacity == Opacity::Transparent ==> r == FillPlan::Skip,
        supports_tri_list && opacity == Opacity::Translucent ==> r == (FillPlan::Draw { blend: true }),
        supports_tri_list && opacity == Opacity::Opaque ==> r == (FillPlan::Draw { blend: false }),
{
    if !supports_tri_list {
        FillPlan::Unsupported
    } else {
        match opacity {
            Opacity::Transparent => FillPlan::Skip,
            Opacity::Translucent => FillPlan::Draw { blend: true },
            Opacity::Opaque => FillPlan::Draw { blend: false },
        }
    }
}

} // verus!
