//! Border overlay: the state machine behind the flicker-free transition
//! protocol.  The render backend binds to a fixed pixel size, so any
//! change of footprint must tear the surface down and recreate it; a pure
//! reposition keeps the surface.  This module decides which of the two
//! paths a requested update takes and computes the exact rectangles each
//! border style paints; executing the surface operations is the caller's
//! job.

use vstd::prelude::*;

use crate::color::{scaled_color, spec_scaled_color, Color, COLOR_SCALE};
use crate::config::BorderStyle;
use crate::geometry::Rect;

verus! {

/// Number of concentric frames the glow style paints.
pub const GLOW_LAYERS: i32 = 4;

/// Thickness in pixels of each glow frame.
pub const GLOW_LAYER_THICKNESS: i32 = 2;

/// Total thickness the glow style occupies, independent of the configured
/// solid thickness.
pub const GLOW_TOTAL_THICKNESS: i32 = 8;

/// The render backend resource: either unbound, or bound to a pixel
/// buffer of a fixed size.  It is never resized in place; a size change
/// always passes through a rebuild.
#[derive(Clone, Copy, PartialEq, Eq, Structural, Debug)]
pub enum SurfaceState {
    Unbound,
    BoundAtSize { width: i32, height: i32 },
}

/// Brightness of glow layer `i` (outermost first), in per cent of the
/// base color.
pub open spec fn spec_glow_percent(i: int) -> u32 {
    if i == 0 {
        15
    } else if i == 1 {
        35
    } else if i == 2 {
        65
    } else {
        100
    }
}

/// State of the border overlay surface.
pub struct BorderOverlay {
    pub color: Color,
    pub thickness: i32,
    pub style: BorderStyle,
    pub last_overlay_rect: Rect,
    pub surface: SurfaceState,
}

/// The border thickness the active style occupies on each side of the
/// window: the configured thickness for solid, the fixed glow total for
/// glow.
pub open spec fn spec_effective_thickness(o: BorderOverlay) -> int {
    match o.style {
        BorderStyle::Solid => o.thickness as int,
        BorderStyle::Glow => GLOW_TOTAL_THICKNESS as int,
    }
}

/// The overlay rectangle for a target window rectangle: the target
/// expanded outward by `e` on all four sides, so the border frames the
/// window rather than overlapping it.
pub open spec fn spec_overlay_rect(target: Rect, e: int) -> Rect {
    Rect {
        left: (target.left - e) as i32,
        top: (target.top - e) as i32,
        right: (target.right + e) as i32,
        bottom: (target.bottom + e) as i32,
    }
}

/// The expansion by `e` stays within machine coordinates, and the
/// resulting pixel size fits a machine integer.
pub open spec fn spec_expansion_fits(target: Rect, e: int) -> bool {
    &&& 0 <= e
    &&& i32::MIN <= target.left - e
    &&& i32::MIN <= target.top - e
    &&& target.right + e <= i32::MAX
    &&& target.bottom + e <= i32::MAX
    &&& i32::MIN <= (target.right + e) - (target.left - e) <= i32::MAX
    &&& i32::MIN <= (target.bottom + e) - (target.top - e) <= i32::MAX
}

/// The overlay rectangle a border update at `target` aims for, given the
/// overlay's current style and thickness.
pub open spec fn spec_update_rect(o: BorderOverlay, target: Rect) -> Rect {
    spec_overlay_rect(target, spec_effective_thickness(o))
}

/// Whether moving the overlay to frame `target` changes its pixel
/// footprint, forcing a surface rebuild.
pub open spec fn spec_size_changed(o: BorderOverlay, target: Rect) -> bool {
    spec_update_rect(o, target).spec_width() != o.last_overlay_rect.spec_width()
        || spec_update_rect(o, target).spec_height() != o.last_overlay_rect.spec_height()
}

/// How a requested border update is carried out.
#[derive(Clone, Copy, PartialEq, Eq, Debug)]
pub enum BorderTransition {
    /// The overlay rectangle is unchanged: nothing to do at all.
    Unchanged,
    /// Same pixel size, new position: reposition the surface, keep the
    /// render backend.
    Moved { overlay_rect: Rect },
    /// New pixel size: make the surface invisible, reposition it, destroy
    /// and recreate the render backend at the new size, render, then
    /// reveal (or hide on render failure) — in that order, so no
    /// intermediate frame becomes visible.
    Rebuilt { overlay_rect: Rect, width: i32, height: i32 },
}

/// One operation on the overlay surface.
#[derive(Clone, Copy, PartialEq, Eq, Structural, Debug)]
pub enum SurfaceOp {
    /// Make the surface fully invisible to the user while keeping it live
    /// for the compositor, so rendering into it still works.
    MakeInvisible,
    /// Move and resize the surface to this rectangle without activating
    /// it.
    Reposition(Rect),
    /// Destroy the render backend and recreate it at this pixel size; it
    /// is never resized in place.
    RecreateSurface { width: i32, height: i32 },
    /// Render the border shape at the new dimensions.
    RenderBorder,
}

impl BorderTransition {
    /// The surface operations that carry this transition out, in the one
    /// order that shows no intermediate frame: the surface goes invisible
    /// before any footprint change, is repositioned, gets a fresh backend
    /// at the new size, and is rendered; `after_render` then says whether
    /// to reveal or hide it.  A pure move repositions and nothing more,
    /// and a no-op transition touches nothing.
    pub fn ops(&self) -> (r: Vec<SurfaceOp>)
        ensures
            self == BorderTransition::Unchanged ==> r@ =~= Seq::<SurfaceOp>::empty(),
            self matches BorderTransition::Moved { overlay_rect } ==> r@ =~= seq![
                SurfaceOp::Reposition(*overlay_rect),
            ],
            self matches BorderTransition::Rebuilt { overlay_rect, width, height } ==> r@ =~= seq![
                SurfaceOp::MakeInvisible,
                SurfaceOp::Reposition(*overlay_rect),
                SurfaceOp::RecreateSurface { width: *width, height: *height },
                SurfaceOp::RenderBorder,
            ],
    {
        let mut r: Vec<SurfaceOp> = Vec::new();
        match self {
            BorderTransition::Unchanged => {},
            BorderTransition::Moved { overlay_rect } => {
                r.push(SurfaceOp::Reposition(*overlay_rect));
            },
            BorderTransition::Rebuilt { overlay_rect, width, height } => {
                r.push(SurfaceOp::MakeInvisible);
                r.push(SurfaceOp::Reposition(*overlay_rect));
                r.push(SurfaceOp::RecreateSurface { width: *width, height: *height });
                r.push(SurfaceOp::RenderBorder);
            },
        }
        r
    }
}

/// What to do with the surface once the caller has rendered.
#[derive(Clone, Copy, PartialEq, Eq, Structural, Debug)]
pub enum RenderFollowUp {
    /// Rendering succeeded: restore color-key transparency so the border
    /// becomes visible without a rectangular silhouette.
    Reveal,
    /// Rendering succeeded and the surface must also go to the top of the
    /// z-order.
    RevealAndRaise,
    /// Rendering failed: hide the surface entirely rather than leave it
    /// showing undefined content.
    HideSurface,
}

impl BorderOverlay {
    /// The remembered overlay rectangle always has a pixel size that fits
    /// a machine integer, so footprint comparisons cannot overflow.
    pub open spec fn wf(self) -> bool {
        &&& i32::MIN <= self.last_overlay_rect.spec_width() <= i32::MAX
        &&& i32::MIN <= self.last_overlay_rect.spec_height() <= i32::MAX
    }

    /// The overlay starts with no surface bound and no remembered
    /// rectangle, so the first update always rebuilds.
    pub fn new(color: Color, thickness: i32, style: BorderStyle) -> (o: BorderOverlay)
        requires
            color.wf(),
            thickness >= 1,
        ensures
            o.color == color,
            o.thickness == thickness,
            o.style == style,
            o.last_overlay_rect == (Rect { left: 0, top: 0, right: 0, bottom: 0 }),
            o.surface == SurfaceState::Unbound,
            o.wf(),
    {
        BorderOverlay {
            color,
            thickness,
            style,
            last_overlay_rect: Rect { left: 0, top: 0, right: 0, bottom: 0 },
            surface: SurfaceState::Unbound,
        }
    }

    /// The pixel thickness the active style occupies.
    pub fn effective_thickness(&self) -> (t: i32)
        ensures
            t as int == spec_effective_thickness(*self),
    {
        match self.style {
            BorderStyle::Solid => self.thickness,
            BorderStyle::Glow => GLOW_TOTAL_THICKNESS,
        }
    }

    /// Switch the border style.  A changed style forgets the last overlay
    /// rectangle, so the next update repaints even at an unchanged
    /// target.
    pub fn set_style(&mut self, style: BorderStyle)
        ensures
            old(self).wf() ==> final(self).wf(),
            final(self).style == style,
            old(self).style != style ==> final(self).last_overlay_rect == (Rect {
                left: 0,
                top: 0,
                right: 0,
                bottom: 0,
            }),
            old(self).style == style ==> final(self).last_overlay_rect == old(
                self,
            ).last_overlay_rect,
            final(self).color == old(self).color,
            final(self).thickness == old(self).thickness,
            final(self).surface == old(self).surface,
    {
        if self.style != style {
            self.style = style;
            self.last_overlay_rect = Rect { left: 0, top: 0, right: 0, bottom: 0 };
        }
    }

    /// Decide and record the transition that moves the border to frame
    /// `target`.
    ///
    /// An unchanged overlay rectangle is a no-op: no surface recreation,
    /// no repositioning, no state change.  A pure move keeps the render
    /// backend, because the border shape depends only on the rectangle's
    /// size, not its position.  Only a size change rebuilds the surface.
    pub fn update(&mut self, target: &Rect) -> (r: BorderTransition)
        requires
            old(self).wf(),
            spec_expansion_fits(*target, spec_effective_thickness(*old(self))),
        ensures
            final(self).wf(),
            final(self).color == old(self).color,
            final(self).thickness == old(self).thickness,
            final(self).style == old(self).style,
            spec_update_rect(*old(self), *target) == old(self).last_overlay_rect ==> r
                == BorderTransition::Unchanged && *final(self) == *old(self),
            spec_update_rect(*old(self), *target) != old(self).last_overlay_rect
                && !spec_size_changed(*old(self), *target) ==> {
                &&& r == (BorderTransition::Moved {
                    overlay_rect: spec_update_rect(*old(self), *target),
                })
                &&& final(self).last_overlay_rect == spec_update_rect(*old(self), *target)
                &&& final(self).surface == old(self).surface
            },
            spec_update_rect(*old(self), *target) != old(self).last_overlay_rect
                && spec_size_changed(*old(self), *target) ==> {
                &&& r == (BorderTransition::Rebuilt {
                    overlay_rect: spec_update_rect(*old(self), *target),
                    width: spec_update_rect(*old(self), *target).spec_width() as i32,
                    height: spec_update_rect(*old(self), *target).spec_height() as i32,
                })
                &&& final(self).last_overlay_rect == spec_update_rect(*old(self), *target)
                &&& final(self).surface == (SurfaceState::BoundAtSize {
                    width: spec_update_rect(*old(self), *target).spec_width() as i32,
                    height: spec_update_rect(*old(self), *target).spec_height() as i32,
                })
            },
            final(self).surface != old(self).surface ==> r matches BorderTransition::Rebuilt {
                ..
            },
    {
        let t = self.effective_thickness();
        let overlay_rect = Rect {
            left: target.left - t,
            top: target.top - t,
            right: target.right + t,
            bottom: target.bottom + t,
        };
        if overlay_rect == self.last_overlay_rect {
            return BorderTransition::Unchanged;
        }
        let old_w = self.last_overlay_rect.right - self.last_overlay_rect.left;
        let old_h = self.last_overlay_rect.bottom - self.last_overlay_rect.top;
        let new_w = overlay_rect.right - overlay_rect.left;
        let new_h = overlay_rect.bottom - overlay_rect.top;
        self.last_overlay_rect = overlay_rect;
        if new_w != old_w || new_h != old_h {
            self.surface = SurfaceState::BoundAtSize { width: new_w, height: new_h };
            BorderTransition::Rebuilt { overlay_rect, width: new_w, height: new_h }
        } else {
            BorderTransition::Moved { overlay_rect }
        }
    }

    /// Record a full move-and-rebuild, used on focus change: the surface
    /// is always recreated and re-rendered at the new rectangle, whatever
    /// the old one was.
    pub fn move_to(&mut self, target: &Rect) -> (r: BorderTransition)
        requires
            spec_expansion_fits(*target, spec_effective_thickness(*old(self))),
        ensures
            final(self).wf(),
            ({
                let rect = spec_overlay_rect(*target, spec_effective_thickness(*old(self)));
                &&& r == (BorderTransition::Rebuilt {
                    overlay_rect: rect,
                    width: rect.spec_width() as i32,
                    height: rect.spec_height() as i32,
                })
                &&& final(self).last_overlay_rect == rect
                &&& final(self).surface == (SurfaceState::BoundAtSize {
                    width: rect.spec_width() as i32,
                    height: rect.spec_height() as i32,
                })
                &&& final(self).color == old(self).color
                &&& final(self).thickness == old(self).thickness
                &&& final(self).style == old(self).style
            }),
    {
        let t = self.effective_thickness();
        let overlay_rect = Rect {
            left: target.left - t,
            top: target.top - t,
            right: target.right + t,
            bottom: target.bottom + t,
        };
        let w = overlay_rect.right - overlay_rect.left;
        let h = overlay_rect.bottom - overlay_rect.top;
        self.last_overlay_rect = overlay_rect;
        self.surface = SurfaceState::BoundAtSize { width: w, height: h };
        BorderTransition::Rebuilt { overlay_rect, width: w, height: h }
    }
}

/// A filled rectangle of one color, in surface-local pixel coordinates.
#[derive(Clone, Copy, PartialEq, Eq, Structural, Debug)]
pub struct PaintRect {
    pub rect: Rect,
    pub color: Color,
}

/// One concentric frame of the glow.
#[derive(Clone, Copy, PartialEq, Eq, Structural, Debug)]
pub struct GlowLayer {
    pub thickness: i32,
    pub color: Color,
}

/// The color-key color.  Every surface is cleared to exactly this color,
/// which the compositor treats as fully transparent, so the rendered
/// border appears without a rectangular silhouette.
pub fn key_color() -> (c: Color)
    ensures
        c == (Color { r: COLOR_SCALE, g: 0, b: COLOR_SCALE, a: COLOR_SCALE }),
{
    Color { r: COLOR_SCALE, g: 0, b: COLOR_SCALE, a: COLOR_SCALE }
}

/// Glow layer definitions, outermost to innermost: each layer is 2 px
/// thick, with brightness scaled at 15, 35, 65 and 100 per cent of the
/// base color.
pub fn glow_colors(base: &Color) -> (r: Vec<GlowLayer>)
    requires
        base.wf(),
    ensures
        r@.len() == GLOW_LAYERS as int,
        forall|i: int|
            0 <= i < GLOW_LAYERS as int ==> (#[trigger] r@[i]) == (GlowLayer {
                thickness: GLOW_LAYER_THICKNESS,
                color: spec_scaled_color(*base, spec_glow_percent(i)),
            }),
{
    let mut r: Vec<GlowLayer> = Vec::new();
    r.push(GlowLayer { thickness: GLOW_LAYER_THICKNESS, color: scaled_color(base, 15) });
    r.push(GlowLayer { thickness: GLOW_LAYER_THICKNESS, color: scaled_color(base, 35) });
    r.push(GlowLayer { thickness: GLOW_LAYER_THICKNESS, color: scaled_color(base, 65) });
    r.push(GlowLayer { thickness: GLOW_LAYER_THICKNESS, color: scaled_color(base, 100) });
    r
}

/// The four filled rectangles of a solid border: top and bottom bars of
/// the full width, and left and right bars between them.
pub open spec fn spec_solid_paint(w: i32, h: i32, t: i32, color: Color) -> Seq<PaintRect> {
    seq![
        PaintRect { rect: Rect { left: 0, top: 0, right: w, bottom: t }, color },
        PaintRect { rect: Rect { left: 0, top: (h - t) as i32, right: w, bottom: h }, color },
        PaintRect { rect: Rect { left: 0, top: t, right: t, bottom: (h - t) as i32 }, color },
        PaintRect {
            rect: Rect { left: (w - t) as i32, top: t, right: w, bottom: (h - t) as i32 },
            color,
        },
    ]
}

/// The four filled rectangles of one glow frame inset by `offset`, each
/// `lt` pixels thick.
pub open spec fn spec_glow_frame(w: i32, h: i32, offset: i32, lt: i32, color: Color) -> Seq<
    PaintRect,
> {
    seq![
        PaintRect {
            rect: Rect {
                left: offset,
                top: offset,
                right: (w - offset) as i32,
                bottom: (offset + lt) as i32,
            },
            color,
        },
        PaintRect {
            rect: Rect {
                left: offset,
                top: (h - offset - lt) as i32,
                right: (w - offset) as i32,
                bottom: (h - offset) as i32,
            },
            color,
        },
        PaintRect {
            rect: Rect {
                left: offset,
                top: (offset + lt) as i32,
                right: (offset + lt) as i32,
                bottom: (h - offset - lt) as i32,
            },
            color,
        },
        PaintRect {
            rect: Rect {
                left: (w - offset - lt) as i32,
                top: (offset + lt) as i32,
                right: (w - offset) as i32,
                bottom: (h - offset - lt) as i32,
            },
            color,
        },
    ]
}

/// The sixteen filled rectangles of a glow border: four concentric
/// frames, outermost first, at offsets 0, 2, 4 and 6.
pub open spec fn spec_glow_paint(w: i32, h: i32, base: Color) -> Seq<PaintRect> {
    spec_glow_frame(w, h, 0, 2, spec_scaled_color(base, 15)) + spec_glow_frame(
        w,
        h,
        2,
        2,
        spec_scaled_color(base, 35),
    ) + spec_glow_frame(w, h, 4, 2, spec_scaled_color(base, 65)) + spec_glow_frame(
        w,
        h,
        6,
        2,
        spec_scaled_color(base, 100),
    )
}

impl BorderOverlay {
    /// The list of filled rectangles that paints this border at a surface
    /// of `width` by `height` pixels, in paint order.  The caller clears
    /// the surface to `key_color` first, then fills these.
    pub fn render_plan(&self, width: i32, height: i32) -> (r: Vec<PaintRect>)
        requires
            width >= 0,
            height >= 0,
            self.thickness >= 0,
            self.color.wf(),
        ensures
            self.style == BorderStyle::Solid ==> r@ == spec_solid_paint(
                width,
                height,
                self.thickness,
                Color { r: self.color.r, g: self.color.g, b: self.color.b, a: COLOR_SCALE },
            ),
            self.style == BorderStyle::Glow ==> r@ == spec_glow_paint(width, height, self.color),
    {
        let mut r: Vec<PaintRect> = Vec::new();
        match self.style {
            BorderStyle::Solid => {
                let t = self.thickness;
                let color = Color { r: self.color.r, g: self.color.g, b: self.color.b, a: COLOR_SCALE };
                r.push(PaintRect { rect: Rect { left: 0, top: 0, right: width, bottom: t }, color });
                r.push(
                    PaintRect {
                        rect: Rect { left: 0, top: height - t, right: width, bottom: height },
                        color,
                    },
                );
                r.push(
                    PaintRect { rect: Rect { left: 0, top: t, right: t, bottom: height - t }, color },
                );
                r.push(
                    PaintRect {
                        rect: Rect { left: width - t, top: t, right: width, bottom: height - t },
                        color,
                    },
                );
                proof {
                    assert(r@ =~= spec_solid_paint(width, height, self.thickness, color));
                }
            },
            BorderStyle::Glow => {
                let layers = glow_colors(&self.color);
                let lt = GLOW_LAYER_THICKNESS;
                let mut l: usize = 0;
                while l < 4
                    invariant
                        l <= 4,
                        lt == GLOW_LAYER_THICKNESS,
                        layers@.len() == 4,
                        width >= 0,
                        height >= 0,
                        self.color.wf(),
                        forall|i: int|
                            0 <= i < 4 ==> (#[trigger] layers@[i]) == (GlowLayer {
                                thickness: GLOW_LAYER_THICKNESS,
                                color: spec_scaled_color(self.color, spec_glow_percent(i)),
                            }),
                        r@.len() == 4 * l as int,
                        forall|k: int|
                            0 <= k < r@.len() ==> #[trigger] r@[k] == spec_glow_frame(
                                width,
                                height,
                                (2 * (k / 4)) as i32,
                                GLOW_LAYER_THICKNESS,
                                spec_scaled_color(self.color, spec_glow_percent(k / 4)),
                            )[k % 4],
                    decreases 4 - l as int,
                {
                    let offset = 2 * (l as i32);
                    let color = layers[l].color;
                    r.push(
                        PaintRect {
                            rect: Rect {
                                left: offset,
                                top: offset,
                                right: width - offset,
                                bottom: offset + lt,
                            },
                            color,
                        },
                    );
                    r.push(
                        PaintRect {
                            rect: Rect {
                                left: offset,
                                top: height - offset - lt,
                                right: width - offset,
                                bottom: height - offset,
                            },
                            color,
                        },
                    );
                    r.push(
                        PaintRect {
                            rect: Rect {
                                left: offset,
                                top: offset + lt,
                                right: offset + lt,
                                bottom: height - offset - lt,
                            },
                            color,
                        },
                    );
                    r.push(
                        PaintRect {
                            rect: Rect {
                                left: width - offset - lt,
                                top: offset + lt,
                                right: width - offset,
                                bottom: height - offset - lt,
                            },
                            color,
                        },
                    );
                    l = l + 1;
                }
                proof {
                    assert(r@ =~= spec_glow_paint(width, height, self.color));
                }
            },
        }
        r
    }
}

/// The step after rendering: reveal the surface on success (raising it on
/// a focus move), hide it on failure.
pub fn after_render(render_ok: bool, raise: bool) -> (r: RenderFollowUp)
    ensures
        !render_ok ==> r == RenderFollowUp::HideSurface,
        render_ok && raise ==> r == RenderFollowUp::RevealAndRaise,
        render_ok && !raise ==> r == RenderFollowUp::Reveal,
{
    if !render_ok {
        RenderFollowUp::HideSurface
    } else if raise {
        RenderFollowUp::RevealAndRaise
    } else {
        RenderFollowUp::Reveal
    }
}

} // verus!
