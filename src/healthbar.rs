//! What a health bar shows for a given health value.
use vstd::prelude::*;
use crate::geometry::Point;
use crate::health::HitPoints;

verus! {

/// Geometry and visibility policy of a health bar.
#[derive(Clone, Copy, Debug, PartialEq, Eq, Structural)]
pub struct HealthBar {
    /// In pixels.
    pub width: u16,
    /// In pixels.
    pub height: u16,
    /// Where the bar sits relative to its owner.
    pub offset: Point,
    /// Whether the bar stays visible at full health.
    pub show_full: bool,
    /// Whether the bar stays visible at zero health.
    pub show_empty: bool,
}

/// Color of the foreground bar.
#[derive(Clone, Copy, Debug, PartialEq, Eq, Structural)]
pub enum BarColor {
    /// Fully transparent.
    Hidden,
    /// Under a quarter of the maximum.
    Low,
    /// From a quarter up to, not including, three quarters.
    Mid,
    /// Three quarters or more.
    High,
}

/// What the foreground and background of a health bar look like.
#[derive(Clone, Copy, Debug, PartialEq, Eq, Structural)]
pub struct BarAppearance {
    pub color: BarColor,
    pub background_visible: bool,
    /// Width of the foreground bar.
    pub width: u16,
    /// Width that the foreground lacks on its right; the foreground is
    /// shifted left by half of it, so that it depletes toward its left edge.
    pub inset: u16,
}

/// Attaches a health bar of the given size and policy.
pub fn spawn(width: u16, height: u16, offset: Point, show_full: bool, show_empty: bool) -> (r:
    HealthBar)
    ensures
        r == (HealthBar { width, height, offset, show_full, show_empty }),
{
    HealthBar { width, height, offset, show_full, show_empty }
}

/// Health below the maximum that counts toward the fraction shown.
pub open spec fn shown(hp: HitPoints) -> nat {
    if hp.current <= hp.max {
        hp.current as nat
    } else {
        hp.max as nat
    }
}

/// The bar is transparent at full or at zero health unless its policy keeps it.
pub open spec fn is_hidden(bar: HealthBar, hp: HitPoints) -> bool {
    (hp.current == hp.max && !bar.show_full) || (hp.current == 0 && !bar.show_empty)
}

/// Color for the fraction `current / max`, clamped to `[0, 1]` (zero when
/// `max` is zero).
pub open spec fn color_of(bar: HealthBar, hp: HitPoints) -> BarColor {
    if is_hidden(bar, hp) {
        BarColor::Hidden
    } else if hp.max == 0 || 4 * shown(hp) < hp.max {
        BarColor::Low
    } else if 4 * shown(hp) < 3 * hp.max {
        BarColor::Mid
    } else {
        BarColor::High
    }
}

/// Width of the foreground: the bar's width scaled by the clamped fraction.
pub open spec fn width_of(bar: HealthBar, hp: HitPoints) -> nat {
    if hp.max == 0 {
        0
    } else {
        bar.width as nat * shown(hp) / hp.max as nat
    }
}

/// The appearance of `bar` for the health `hp`.
pub fn update(bar: &HealthBar, hp: &HitPoints) -> (r: BarAppearance)
    ensures
        r.color == color_of(*bar, *hp),
        r.background_visible == !is_hidden(*bar, *hp),
        r.width == width_of(*bar, *hp),
        r.width + r.inset == bar.width,
{
    let hidden = (hp.current == hp.max && !bar.show_full) || (hp.current == 0 && !bar.show_empty);
    let shown: u64 = if hp.current <= hp.max { hp.current as u64 } else { hp.max as u64 };
    let max: u64 = hp.max as u64;
    let color = if hidden {
        BarColor::Hidden
    } else if max == 0 || 4 * shown < max {
        BarColor::Low
    } else if 4 * shown < 3 * max {
        BarColor::Mid
    } else {
        BarColor::High
    };
    let width: u16 = if max == 0 {
        0
    } else {
        proof {
            lemma_scaled_width(bar.width as nat, shown as nat, max as nat);
        }
        (bar.width as u64 * shown / max) as u16
    };
    BarAppearance { color, background_visible: !hidden, width, inset: bar.width - width }
}

proof fn lemma_scaled_width(w: nat, n: nat, m: nat)
    requires
        n <= m,
        m > 0,
        w <= 0xffff,
        m <= 0xffff_ffff,
    ensures
        w * n / m <= w,
        w * n <= 0xffff * 0xffff_ffff,
{
    assert(w * n <= w * m) by (nonlinear_arith)
        requires
            n <= m,
    ;
    vstd::arithmetic::div_mod::lemma_div_is_ordered((w * n) as int, (w * m) as int, m as int);
    vstd::arithmetic::div_mod::lemma_div_multiples_vanish(w as int, m as int);
    assert(w * m == m * w) by (nonlinear_arith);
    assert(w * n <= 0xffff * 0xffff_ffff) by (nonlinear_arith)
        requires
            w <= 0xffff,
            n <= 0xffff_ffff,
    ;
}

/// Where a status indicator sits: six pixels past the right end of the bar,
/// level with it.
pub fn indicator_offset(bar: &HealthBar) -> (r: Point)
    ensures
        r.x == (bar.width / 2 + 6) * 1000,
        r.y == bar.offset.y,
{
    Point { x: ((bar.width / 2) as i32 + 6) * 1000, y: bar.offset.y }
}

} // verus!
