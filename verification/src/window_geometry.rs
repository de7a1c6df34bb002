use vstd::prelude::*;
use vstd::arithmetic::div_mod::{lemma_div_by_multiple, lemma_fundamental_div_mod, lemma_mod_bound};

use crate::config::WindowConfig;

verus! {

/// Where and how large the main window opens, and whether the stored
/// configuration must be rewritten to match.
#[derive(Debug, Clone, Copy, PartialEq, Eq, Structural)]
pub struct InitialWindow {
    pub x: i32,
    pub y: i32,
    pub width: i32,
    pub height: i32,
    /// The stored size or DPI differs from what the window opens with.
    pub normalized: bool,
}

/// `n` clamped to `lo..=hi`.
pub open spec fn clamp(n: int, lo: int, hi: int) -> int {
    if n < lo {
        lo
    } else if n > hi {
        hi
    } else {
        n
    }
}

/// A stored extent rescaled from the DPI it was recorded at to the target
/// DPI, kept between 1 and `i32::MAX`.
pub open spec fn rescaled(extent: u32, target_dpi: nat, source_dpi: nat) -> int {
    clamp((extent as nat * target_dpi) as int / source_dpi as int, 1, i32::MAX as int)
}

/// The opened extent: the minimum when nothing is stored, else the rescaled
/// extent but at least the minimum.
pub open spec fn opened_extent(stored: u32, scaled: int, min: int) -> int {
    if stored == 0 {
        min
    } else if scaled < min {
        min
    } else {
        scaled
    }
}

/// The window geometry at start-up. `monitor_dpi` is the DPI of the monitor
/// at the stored position, `base_width` and `base_height` the smallest usable
/// size at that DPI; zero or negative values count as 1. The stored size is
/// rescaled from its recorded DPI (the monitor's when none was recorded).
pub open spec fn initial_window_spec(
    window: WindowConfig,
    monitor_dpi: u32,
    base_width: i32,
    base_height: i32,
) -> InitialWindow {
    let target: nat = if monitor_dpi < 1 { 1 } else { monitor_dpi as nat };
    let recorded: nat = match window.dpi {
        Some(d) => d as nat,
        None => target,
    };
    let source: nat = if recorded < 1 { 1 } else { recorded };
    let sw = rescaled(window.width, target, source);
    let sh = rescaled(window.height, target, source);
    let min_w = clamp(base_width as int, 1, i32::MAX as int);
    let min_h = clamp(base_height as int, 1, i32::MAX as int);
    let w = opened_extent(window.width, sw, min_w);
    let h = opened_extent(window.height, sh, min_h);
    InitialWindow {
        x: window.x,
        y: window.y,
        width: w as i32,
        height: h as i32,
        normalized: sw != w || sh != h || window.dpi != Some(target as u32),
    }
}

fn rescale(extent: u32, target: u32, source: u32) -> (r: i32)
    requires
        source >= 1,
    ensures
        r as int == rescaled(extent, target as nat, source as nat),
{
    proof {
        assert((extent as int) * (target as int) <= 0xffff_fffe_0000_0001int) by (nonlinear_arith)
            requires
                0 <= extent <= 0xffff_ffffint,
                0 <= target <= 0xffff_ffffint,
        ;
    }
    let wide: u64 = (extent as u64) * (target as u64);
    let scaled = wide / (source as u64);
    let clamped = if scaled < 1 {
        1
    } else if scaled > 0x7fff_ffff {
        0x7fff_ffff
    } else {
        scaled
    };
    clamped as i32
}

/// Computes the window geometry at start-up (see `initial_window_spec`).
pub fn initial_window(
    window: &WindowConfig,
    monitor_dpi: u32,
    base_width: i32,
    base_height: i32,
) -> (g: InitialWindow)
    ensures
        g == initial_window_spec(*window, monitor_dpi, base_width, base_height),
{
    let target = if monitor_dpi < 1 { 1 } else { monitor_dpi };
    let recorded = match window.dpi {
        Some(d) => d,
        None => target,
    };
    let source = if recorded < 1 { 1 } else { recorded };
    let sw = rescale(window.width, target, source);
    let sh = rescale(window.height, target, source);
    let min_w = if base_width < 1 { 1 } else { base_width };
    let min_h = if base_height < 1 { 1 } else { base_height };
    let w = if window.width == 0 {
        min_w
    } else if sw < min_w {
        min_w
    } else {
        sw
    };
    let h = if window.height == 0 {
        min_h
    } else if sh < min_h {
        min_h
    } else {
        sh
    };
    let dpi_matches = match window.dpi {
        Some(d) => d == target,
        None => false,
    };
    InitialWindow { x: window.x, y: window.y, width: w, height: h, normalized: sw != w || sh != h || !dpi_matches }
}

proof fn lemma_opened_is_floor(stored: u32, t: nat, d: nat, min: int)
    requires
        stored != 0,
        t >= 1,
        d >= 1,
        1 <= min <= i32::MAX,
    ensures
        ({
            let st = stored as int * t as int;
            let q = st / d as int;
            let o = opened_extent(stored, rescaled(stored, t, d), min);
            &&& o == (if q < min {
                min
            } else if q > i32::MAX {
                i32::MAX as int
            } else {
                q
            })
            &&& (min < o && o < i32::MAX) ==> o * d <= st < (o + 1) * d
        }),
{
    let di = d as int;
    let st = stored as int * t as int;
    assert(st >= 0) by (nonlinear_arith)
        requires
            stored >= 0,
            t >= 0,
            st == stored as int * t as int,
    ;
    assert((stored as nat * t) as int == st);
    let q = st / di;
    lemma_fundamental_div_mod(st, di);
    lemma_mod_bound(st, di);
    assert(q >= 0) by (nonlinear_arith)
        requires
            st >= 0,
            di > 0,
            q == st / di,
    ;
    assert(q * di <= st && st < (q + 1) * di) by (nonlinear_arith)
        requires
            st == di * q + st % di,
            0 <= st % di < di,
    ;
    assert(rescaled(stored, t, d) == clamp(q, 1, i32::MAX as int));
}

/// The opened size is the stored size times the monitor's DPI over the
/// recorded DPI, rounded down, kept within `1..=i32::MAX` and raised to the
/// minimum, for a monitor of lower DPI as well as of higher. Where an extent
/// is neither its minimum nor the largest `i32`, it is the exact floor of the
/// rescaled extent. A recorded DPI other than the monitor's always asks for
/// the configuration to be rewritten.
pub proof fn lemma_initial_size_rescales(
    window: WindowConfig,
    monitor_dpi: u32,
    base_width: i32,
    base_height: i32,
)
    requires
        window.width != 0,
        window.height != 0,
        monitor_dpi >= 1,
        window.dpi matches Some(d) && d >= 1,
    ensures
        ({
            let g = initial_window_spec(window, monitor_dpi, base_width, base_height);
            let d = window.dpi->0 as int;
            let t = monitor_dpi as int;
            let sw = window.width as int * t;
            let sh = window.height as int * t;
            let min_w: int = if base_width < 1 { 1 } else { base_width as int };
            let min_h: int = if base_height < 1 { 1 } else { base_height as int };
            let qw = sw / d;
            let qh = sh / d;
            &&& g.width as int == (if qw < min_w {
                min_w
            } else if qw > i32::MAX {
                i32::MAX as int
            } else {
                qw
            })
            &&& g.height as int == (if qh < min_h {
                min_h
            } else if qh > i32::MAX {
                i32::MAX as int
            } else {
                qh
            })
            &&& (min_w < g.width && g.width < i32::MAX) ==> (g.width as int) * d <= sw < (
            g.width as int + 1) * d
            &&& (min_h < g.height && g.height < i32::MAX) ==> (g.height as int) * d <= sh < (
            g.height as int + 1) * d
            &&& g.width as int >= min_w
            &&& g.height as int >= min_h
            &&& window.dpi != Some(monitor_dpi) ==> g.normalized
        }),
{
    let d = window.dpi->0 as nat;
    let t = monitor_dpi as nat;
    let min_w: int = if base_width < 1 { 1 } else { base_width as int };
    let min_h: int = if base_height < 1 { 1 } else { base_height as int };
    lemma_opened_is_floor(window.width, t, d, min_w);
    lemma_opened_is_floor(window.height, t, d, min_h);
}

/// A window stored at the monitor's own DPI, no smaller than the minimum,
/// opens exactly as stored and needs no rewrite.
pub proof fn lemma_same_dpi_keeps_size(
    window: WindowConfig,
    monitor_dpi: u32,
    base_width: i32,
    base_height: i32,
)
    requires
        monitor_dpi >= 1,
        window.dpi == Some(monitor_dpi),
        window.width >= 1,
        window.height >= 1,
        window.width <= i32::MAX,
        window.height <= i32::MAX,
        window.width >= base_width,
        window.height >= base_height,
    ensures
        ({
            let g = initial_window_spec(window, monitor_dpi, base_width, base_height);
            &&& g.x == window.x
            &&& g.y == window.y
            &&& g.width == window.width
            &&& g.height == window.height
            &&& !g.normalized
        }),
{
    lemma_div_by_multiple(window.width as int, monitor_dpi as int);
    lemma_div_by_multiple(window.height as int, monitor_dpi as int);
    assert((window.width as nat * monitor_dpi as nat) as int == window.width as int * monitor_dpi as int);
    assert((window.height as nat * monitor_dpi as nat) as int == window.height as int * monitor_dpi as int);
}

} // verus!
