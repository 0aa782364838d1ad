use whereismywindow::border::{
    after_render, glow_colors, key_color, BorderOverlay, BorderTransition, RenderFollowUp,
    SurfaceOp, SurfaceState,
};
use whereismywindow::color::Color;
use whereismywindow::config::BorderStyle;
use whereismywindow::geometry::Rect;

fn rect(left: i32, top: i32, right: i32, bottom: i32) -> Rect {
    Rect { left, top, right, bottom }
}

fn blue() -> Color {
    Color { r: 0, g: 4700, b: 8400, a: 9000 }
}

#[test]
fn first_update_rebuilds_the_surface() {
    let mut o = BorderOverlay::new(blue(), 4, BorderStyle::Solid);
    assert_eq!(o.surface, SurfaceState::Unbound);
    let step = o.update(&rect(10, 20, 110, 220));
    // Expanded by the 4 px thickness on all sides.
    assert_eq!(
        step,
        BorderTransition::Rebuilt { overlay_rect: rect(6, 16, 114, 224), width: 108, height: 208 }
    );
    assert_eq!(o.surface, SurfaceState::BoundAtSize { width: 108, height: 208 });
    assert_eq!(o.last_overlay_rect, rect(6, 16, 114, 224));
}

#[test]
fn unchanged_target_is_a_no_op() {
    let mut o = BorderOverlay::new(blue(), 4, BorderStyle::Solid);
    o.update(&rect(10, 20, 110, 220));
    let before_surface = o.surface;
    let before_rect = o.last_overlay_rect;
    let step = o.update(&rect(10, 20, 110, 220));
    assert_eq!(step, BorderTransition::Unchanged);
    assert_eq!(o.surface, before_surface);
    assert_eq!(o.last_overlay_rect, before_rect);
}

#[test]
fn pure_move_keeps_the_render_backend() {
    let mut o = BorderOverlay::new(blue(), 4, BorderStyle::Solid);
    o.update(&rect(10, 20, 110, 220));
    let before_surface = o.surface;
    // Same size, shifted 50 px right.
    let step = o.update(&rect(60, 20, 160, 220));
    assert_eq!(step, BorderTransition::Moved { overlay_rect: rect(56, 16, 164, 224) });
    assert_eq!(o.surface, before_surface);
    assert_eq!(o.last_overlay_rect, rect(56, 16, 164, 224));
}

#[test]
fn resize_forces_a_rebuild() {
    let mut o = BorderOverlay::new(blue(), 4, BorderStyle::Solid);
    o.update(&rect(10, 20, 110, 220));
    let step = o.update(&rect(10, 20, 210, 220));
    assert_eq!(
        step,
        BorderTransition::Rebuilt { overlay_rect: rect(6, 16, 214, 224), width: 208, height: 208 }
    );
    assert_eq!(o.surface, SurfaceState::BoundAtSize { width: 208, height: 208 });
}

#[test]
fn move_to_always_rebuilds() {
    let mut o = BorderOverlay::new(blue(), 4, BorderStyle::Solid);
    o.update(&rect(10, 20, 110, 220));
    // Same target again, but move_to (the focus-change path) still rebuilds.
    let step = o.move_to(&rect(10, 20, 110, 220));
    assert_eq!(
        step,
        BorderTransition::Rebuilt { overlay_rect: rect(6, 16, 114, 224), width: 108, height: 208 }
    );
}

#[test]
fn glow_style_uses_fixed_total_thickness() {
    let mut o = BorderOverlay::new(blue(), 4, BorderStyle::Glow);
    assert_eq!(o.effective_thickness(), 8);
    let step = o.update(&rect(100, 100, 200, 200));
    assert_eq!(
        step,
        BorderTransition::Rebuilt { overlay_rect: rect(92, 92, 208, 208), width: 116, height: 116 }
    );
    o.set_style(BorderStyle::Solid);
    assert_eq!(o.effective_thickness(), 4);
}

#[test]
fn style_change_forgets_last_rect_so_next_update_repaints() {
    let mut o = BorderOverlay::new(blue(), 4, BorderStyle::Solid);
    o.update(&rect(10, 20, 110, 220));
    o.set_style(BorderStyle::Glow);
    assert_eq!(o.last_overlay_rect, rect(0, 0, 0, 0));
    let step = o.update(&rect(10, 20, 110, 220));
    assert!(matches!(step, BorderTransition::Rebuilt { .. }));

    // Setting the same style keeps the remembered rectangle.
    let remembered = o.last_overlay_rect;
    o.set_style(BorderStyle::Glow);
    assert_eq!(o.last_overlay_rect, remembered);
}

#[test]
fn glow_layer_intensities_are_scaled_percentages() {
    // Base color (0.0, 0.47, 0.84) scaled at 15/35/65/100 per cent.
    let layers = glow_colors(&blue());
    assert_eq!(layers.len(), 4);
    let blues: Vec<u32> = layers.iter().map(|l| l.color.b).collect();
    assert_eq!(blues, vec![1260, 2940, 5460, 8400]);
    let greens: Vec<u32> = layers.iter().map(|l| l.color.g).collect();
    assert_eq!(greens, vec![705, 1645, 3055, 4700]);
    for l in &layers {
        assert_eq!(l.thickness, 2);
        assert_eq!(l.color.r, 0);
        assert_eq!(l.color.a, 10000);
    }
    // As floating-point intensities: {0.126, 0.294, 0.546, 0.84}.
    let as_float: Vec<f64> = blues.iter().map(|&b| b as f64 / 10000.0).collect();
    assert_eq!(as_float, vec![0.126, 0.294, 0.546, 0.84]);
}

#[test]
fn solid_render_plan_paints_four_bars() {
    let o = BorderOverlay::new(blue(), 4, BorderStyle::Solid);
    let plan = o.render_plan(108, 208);
    assert_eq!(plan.len(), 4);
    assert_eq!(plan[0].rect, rect(0, 0, 108, 4)); // top
    assert_eq!(plan[1].rect, rect(0, 204, 108, 208)); // bottom
    assert_eq!(plan[2].rect, rect(0, 4, 4, 204)); // left
    assert_eq!(plan[3].rect, rect(104, 4, 108, 204)); // right
    for p in &plan {
        assert_eq!(p.color, Color { r: 0, g: 4700, b: 8400, a: 10000 });
    }
}

#[test]
fn glow_render_plan_paints_four_concentric_frames() {
    let o = BorderOverlay::new(blue(), 4, BorderStyle::Glow);
    let plan = o.render_plan(116, 116);
    assert_eq!(plan.len(), 16);
    // Outermost frame at offset 0, dimmest color.
    assert_eq!(plan[0].rect, rect(0, 0, 116, 2));
    assert_eq!(plan[0].color.b, 1260);
    // Second frame at offset 2.
    assert_eq!(plan[4].rect, rect(2, 2, 114, 4));
    assert_eq!(plan[4].color.b, 2940);
    // Innermost frame at offset 6, full base color.
    assert_eq!(plan[12].rect, rect(6, 6, 110, 8));
    assert_eq!(plan[15].rect, rect(108, 8, 110, 108));
    assert_eq!(plan[12].color.b, 8400);
}

#[test]
fn transition_ops_follow_the_flicker_free_order() {
    let mut o = BorderOverlay::new(blue(), 4, BorderStyle::Solid);
    let rebuilt = o.update(&rect(10, 20, 110, 220));
    assert_eq!(
        rebuilt.ops(),
        vec![
            SurfaceOp::MakeInvisible,
            SurfaceOp::Reposition(rect(6, 16, 114, 224)),
            SurfaceOp::RecreateSurface { width: 108, height: 208 },
            SurfaceOp::RenderBorder,
        ]
    );
    let unchanged = o.update(&rect(10, 20, 110, 220));
    assert_eq!(unchanged.ops(), vec![]);
    let moved = o.update(&rect(60, 20, 160, 220));
    assert_eq!(moved.ops(), vec![SurfaceOp::Reposition(rect(56, 16, 164, 224))]);
}

#[test]
fn render_failure_hides_instead_of_showing_undefined_content() {
    assert_eq!(after_render(false, true), RenderFollowUp::HideSurface);
    assert_eq!(after_render(false, false), RenderFollowUp::HideSurface);
    assert_eq!(after_render(true, true), RenderFollowUp::RevealAndRaise);
    assert_eq!(after_render(true, false), RenderFollowUp::Reveal);
}

#[test]
fn key_color_is_magenta() {
    let c = key_color();
    assert_eq!(c, Color { r: 10000, g: 0, b: 10000, a: 10000 });
}
