//! Pure pane geometry: from window size, scale factor and ask mode to the
//! rectangle of every pane.
use vstd::prelude::*;

verus! {

/// The panes that a host window carries.
#[derive(Clone, Copy, Debug, PartialEq, Eq, Structural)]
pub enum PaneId {
    TitleBar,
    MainContent,
    AskOverlay,
}

/// A device pixel ratio, as the exact fraction `num / den`.
#[derive(Clone, Copy, Debug, PartialEq, Eq, Structural)]
pub struct Scale {
    pub num: u32,
    pub den: u32,
}

impl Scale {
    /// A scale factor is strictly positive.
    pub open spec fn wf(self) -> bool {
        self.num > 0 && self.den > 0
    }

    /// The scale factor `num / den`; `None` when either part is zero.
    pub fn new(num: u32, den: u32) -> (r: Option<Scale>)
        ensures
            r == (if num > 0 && den > 0 { Some(Scale { num, den }) } else { None::<Scale> }),
    {
        if num > 0 && den > 0 {
            Some(Scale { num, den })
        } else {
            None
        }
    }
}

/// A size in physical pixels.
#[derive(Clone, Copy, Debug, PartialEq, Eq, Structural)]
pub struct PhysicalSize {
    pub width: u32,
    pub height: u32,
}

/// A point in logical units, relative to the window origin: `(x / den, y / den)`.
#[derive(Clone, Copy, Debug, PartialEq, Eq, Structural)]
pub struct LogicalPosition {
    pub x: i128,
    pub y: i128,
    pub den: u32,
}

/// Where one pane goes and how large it is.
#[derive(Clone, Copy, Debug, PartialEq, Eq, Structural)]
pub struct PaneRect {
    pub position: LogicalPosition,
    pub size: PhysicalSize,
}

/// One entry of a layout plan.
#[derive(Clone, Copy, Debug, PartialEq, Eq, Structural)]
pub struct PanePlacement {
    pub id: PaneId,
    pub rect: PaneRect,
}

/// The rectangles of all panes for one layout pass.
#[derive(Clone, Copy, Debug, PartialEq, Eq, Structural)]
pub struct LayoutPlan {
    pub titlebar: PanePlacement,
    pub main: PanePlacement,
    pub ask: PanePlacement,
}

/// Why a plan cannot be computed as asked.
#[derive(Clone, Copy, Debug, PartialEq, Eq, Structural)]
pub enum GeometryError {
    /// The fixed-height panes are taller than the window.
    Negative,
}

/// `logical * num / den`, rounded half away from zero.
pub open spec fn rounded_scaled(logical: int, s: Scale) -> int {
    (2 * logical * s.num + s.den) / (2 * s.den)
}

/// The physical height of `logical` logical units, saturated at `u32::MAX`.
pub open spec fn physical_height_spec(logical: u32, s: Scale) -> u32 {
    let v = rounded_scaled(logical as int, s);
    if v > u32::MAX { u32::MAX } else { v as u32 }
}

/// Physical height of the ask pane.
pub open spec fn ask_height_spec(s: Scale, ask_enabled: bool, ask_logical: u32) -> u32 {
    if ask_enabled { physical_height_spec(ask_logical, s) } else { 0 }
}

/// Whether title bar and ask pane fit in the window height.
pub open spec fn fits_spec(
    window_size: PhysicalSize,
    s: Scale,
    titlebar_logical: u32,
    ask_enabled: bool,
    ask_logical: u32,
) -> bool {
    physical_height_spec(titlebar_logical, s) + ask_height_spec(s, ask_enabled, ask_logical)
        <= window_size.height
}

/// Physical height of the main pane: what the other two leave, or zero.
pub open spec fn main_height_spec(
    window_size: PhysicalSize,
    s: Scale,
    titlebar_logical: u32,
    ask_enabled: bool,
    ask_logical: u32,
) -> u32 {
    if fits_spec(window_size, s, titlebar_logical, ask_enabled, ask_logical) {
        (window_size.height - physical_height_spec(titlebar_logical, s) - ask_height_spec(
            s,
            ask_enabled,
            ask_logical,
        )) as u32
    } else {
        0
    }
}

/// The ask pane's top edge in logical units, times `s.num`: the window
/// height in logical units less the ask pane's logical height.
pub open spec fn ask_top_spec(
    window_size: PhysicalSize,
    s: Scale,
    ask_enabled: bool,
    ask_logical: u32,
) -> int {
    window_size.height * s.den - (if ask_enabled { ask_logical as int } else { 0 }) * s.num
}

/// The plan for one pass; the main pane's height is clamped at zero.
pub open spec fn plan_spec(
    window_size: PhysicalSize,
    s: Scale,
    titlebar_logical: u32,
    ask_enabled: bool,
    ask_logical: u32,
) -> LayoutPlan {
    let w = window_size.width;
    LayoutPlan {
        titlebar: PanePlacement {
            id: PaneId::TitleBar,
            rect: PaneRect {
                position: LogicalPosition { x: 0, y: 0, den: 1 },
                size: PhysicalSize { width: w, height: physical_height_spec(titlebar_logical, s) },
            },
        },
        main: PanePlacement {
            id: PaneId::MainContent,
            rect: PaneRect {
                position: LogicalPosition { x: 0, y: titlebar_logical as i128, den: 1 },
                size: PhysicalSize {
                    width: w,
                    height: main_height_spec(
                        window_size,
                        s,
                        titlebar_logical,
                        ask_enabled,
                        ask_logical,
                    ),
                },
            },
        },
        ask: PanePlacement {
            id: PaneId::AskOverlay,
            rect: PaneRect {
                position: LogicalPosition {
                    x: 0,
                    y: ask_top_spec(window_size, s, ask_enabled, ask_logical) as i128,
                    den: s.num,
                },
                size: PhysicalSize {
                    width: w,
                    height: ask_height_spec(s, ask_enabled, ask_logical),
                },
            },
        },
    }
}

/// Physical pixels for `logical` logical units at scale `scale`, rounded half
/// away from zero and saturated at `u32::MAX`.
pub fn physical_height(logical: u32, scale: Scale) -> (r: u32)
    requires
        scale.wf(),
    ensures
        r == physical_height_spec(logical, scale),
{
    let l = logical as u128;
    let n = scale.num as u128;
    let d = scale.den as u128;
    assert(l * n <= 0xFFFF_FFFFu128 * 0xFFFF_FFFFu128) by (nonlinear_arith)
        requires
            l <= 0xFFFF_FFFFu128,
            n <= 0xFFFF_FFFFu128,
    ;
    let q: u128 = (2 * (l * n) + d) / (2 * d);
    assert(2 * (l * n) == 2 * (logical as int) * (scale.num as int)) by (nonlinear_arith)
        requires
            l == logical,
            n == scale.num,
    ;
    if q > u32::MAX as u128 {
        u32::MAX
    } else {
        q as u32
    }
}

/// The plan for one pass; where the window is too small for the title bar
/// and ask pane, the main pane gets height zero.
pub fn compute_plan_clamped(
    window_size: PhysicalSize,
    scale: Scale,
    titlebar_logical: u32,
    ask_enabled: bool,
    ask_logical: u32,
) -> (r: LayoutPlan)
    requires
        scale.wf(),
    ensures
        r == plan_spec(window_size, scale, titlebar_logical, ask_enabled, ask_logical),
{
    let w = window_size.width;
    let h = window_size.height;
    let titlebar_h = physical_height(titlebar_logical, scale);
    let ask_h = if ask_enabled {
        physical_height(ask_logical, scale)
    } else {
        0
    };
    let main_h: u32 = if (titlebar_h as u64) + (ask_h as u64) <= h as u64 {
        h - titlebar_h - ask_h
    } else {
        0
    };
    let ask_units: i128 = if ask_enabled {
        ask_logical as i128
    } else {
        0
    };
    assert((h as i128) * (scale.den as i128) <= 0xFFFF_FFFFi128 * 0xFFFF_FFFFi128)
        by (nonlinear_arith)
        requires
            0 <= h <= 0xFFFF_FFFFi128,
            0 <= scale.den <= 0xFFFF_FFFFi128,
    ;
    assert(0 <= ask_units * (scale.num as i128) <= 0xFFFF_FFFFi128 * 0xFFFF_FFFFi128)
        by (nonlinear_arith)
        requires
            0 <= ask_units <= 0xFFFF_FFFFi128,
            0 <= scale.num <= 0xFFFF_FFFFi128,
    ;
    let ask_top: i128 = (h as i128) * (scale.den as i128) - ask_units * (scale.num as i128);
    LayoutPlan {
        titlebar: PanePlacement {
            id: PaneId::TitleBar,
            rect: PaneRect {
                position: LogicalPosition { x: 0, y: 0, den: 1 },
                size: PhysicalSize { width: w, height: titlebar_h },
            },
        },
        main: PanePlacement {
            id: PaneId::MainContent,
            rect: PaneRect {
                position: LogicalPosition { x: 0, y: titlebar_logical as i128, den: 1 },
                size: PhysicalSize { width: w, height: main_h },
            },
        },
        ask: PanePlacement {
            id: PaneId::AskOverlay,
            rect: PaneRect {
                position: LogicalPosition { x: 0, y: ask_top, den: scale.num },
                size: PhysicalSize { width: w, height: ask_h },
            },
        },
    }
}

/// The plan for one pass, or `GeometryError::Negative` when the title bar and
/// ask pane together are taller than the window.
pub fn compute_plan(
    window_size: PhysicalSize,
    scale: Scale,
    titlebar_logical: u32,
    ask_enabled: bool,
    ask_logical: u32,
) -> (r: Result<LayoutPlan, GeometryError>)
    requires
        scale.wf(),
    ensures
        r == (if fits_spec(window_size, scale, titlebar_logical, ask_enabled, ask_logical) {
            Ok::<LayoutPlan, GeometryError>(
                plan_spec(window_size, scale, titlebar_logical, ask_enabled, ask_logical),
            )
        } else {
            Err::<LayoutPlan, GeometryError>(GeometryError::Negative)
        }),
{
    let plan = compute_plan_clamped(
        window_size,
        scale,
        titlebar_logical,
        ask_enabled,
        ask_logical,
    );
    let used: u64 = plan.titlebar.rect.size.height as u64 + plan.ask.rect.size.height as u64;
    if used <= window_size.height as u64 {
        Ok(plan)
    } else {
        Err(GeometryError::Negative)
    }
}

impl LayoutPlan {
    /// The placements in the order in which a pass applies them.
    pub open spec fn entries_spec(self) -> Seq<PanePlacement> {
        seq![self.titlebar, self.main, self.ask]
    }

    /// The placements in the order in which a pass applies them.
    pub fn entries(&self) -> (r: Vec<PanePlacement>)
        ensures
            r@ == self.entries_spec(),
    {
        let r = vec![self.titlebar, self.main, self.ask];
        assert(r@ =~= self.entries_spec());
        r
    }
}

/// Wherever title bar and ask pane fit, the three panes tile the window
/// height exactly: title bar, main pane and ask pane heights add up to it.
pub proof fn lemma_panes_tile_window(
    window_size: PhysicalSize,
    s: Scale,
    titlebar_logical: u32,
    ask_enabled: bool,
    ask_logical: u32,
)
    requires
        s.wf(),
        fits_spec(window_size, s, titlebar_logical, ask_enabled, ask_logical),
    ensures
        ({
            let p = plan_spec(window_size, s, titlebar_logical, ask_enabled, ask_logical);
            p.titlebar.rect.size.height + p.main.rect.size.height + p.ask.rect.size.height
                == window_size.height
        }),
{
}

/// Making the window `delta` pixels taller makes the main pane exactly
/// `delta` pixels taller and leaves the title bar and ask pane as they were.
pub proof fn lemma_main_height_grows_with_window(
    window_size: PhysicalSize,
    s: Scale,
    titlebar_logical: u32,
    ask_enabled: bool,
    ask_logical: u32,
    delta: u32,
)
    requires
        s.wf(),
        fits_spec(window_size, s, titlebar_logical, ask_enabled, ask_logical),
        window_size.height + delta <= u32::MAX,
    ensures
        ({
            let taller = PhysicalSize {
                width: window_size.width,
                height: (window_size.height + delta) as u32,
            };
            let p = plan_spec(window_size, s, titlebar_logical, ask_enabled, ask_logical);
            let q = plan_spec(taller, s, titlebar_logical, ask_enabled, ask_logical);
            &&& q.main.rect.size.height == p.main.rect.size.height + delta
            &&& q.titlebar.rect.size == p.titlebar.rect.size
            &&& q.ask.rect.size == p.ask.rect.size
        }),
{
}

/// Turning the ask mode on takes the ask pane from height zero to the scaled
/// ask height and takes the same amount from the main pane; the title bar
/// does not move. Turning it off gives back the plan of the mode off.
pub proof fn lemma_ask_toggle(
    window_size: PhysicalSize,
    s: Scale,
    titlebar_logical: u32,
    ask_logical: u32,
)
    requires
        s.wf(),
        fits_spec(window_size, s, titlebar_logical, true, ask_logical),
    ensures
        ({
            let off = plan_spec(window_size, s, titlebar_logical, false, ask_logical);
            let on = plan_spec(window_size, s, titlebar_logical, true, ask_logical);
            &&& off.ask.rect.size.height == 0
            &&& on.ask.rect.size.height == physical_height_spec(ask_logical, s)
            &&& on.main.rect.size.height + on.ask.rect.size.height
                == off.main.rect.size.height
            &&& on.titlebar == off.titlebar
            &&& on.main.rect.position == off.main.rect.position
        }),
{
}

/// A physical height that does not saturate is within half a pixel of the
/// exact product: `|2 * den * r - 2 * logical * num| <= den`.
pub proof fn lemma_physical_height_rounding(logical: u32, s: Scale)
    requires
        s.wf(),
        rounded_scaled(logical as int, s) <= u32::MAX,
    ensures
        -(s.den as int) <= 2 * s.den * physical_height_spec(logical, s) - 2 * logical * s.num
            <= s.den,
{
    let x = 2 * logical * s.num + s.den;
    let d = 2 * s.den;
    let q = x / d;
    assert(d * q <= x < d * q + d) by (nonlinear_arith)
        requires
            d > 0,
            x >= 0,
            q == x / d,
    ;
    assert(physical_height_spec(logical, s) == q);
}

/// The ask heights at two scale factors keep the ratio of the scale factors
/// to within one rounding unit: with `a1`, `a2` the heights at `s1`, `s2`,
/// `|a2 * s1 - a1 * s2| <= (s1 + s2) / 2`, here multiplied out by
/// `2 * s1.den * s2.den`.
pub proof fn lemma_ask_height_scales(ask_logical: u32, s1: Scale, s2: Scale)
    requires
        s1.wf(),
        s2.wf(),
        rounded_scaled(ask_logical as int, s1) <= u32::MAX,
        rounded_scaled(ask_logical as int, s2) <= u32::MAX,
    ensures
        ({
            let a1 = ask_height_spec(s1, true, ask_logical) as int;
            let a2 = ask_height_spec(s2, true, ask_logical) as int;
            let diff = 2 * (a2 * s1.num * s2.den - a1 * s2.num * s1.den);
            let bound = s1.num * s2.den + s2.num * s1.den;
            -bound <= diff <= bound
        }),
{
    lemma_physical_height_rounding(ask_logical, s1);
    lemma_physical_height_rounding(ask_logical, s2);
    let a1 = physical_height_spec(ask_logical, s1) as int;
    let a2 = physical_height_spec(ask_logical, s2) as int;
    let l = ask_logical as int;
    let (n1, d1, n2, d2) = (s1.num as int, s1.den as int, s2.num as int, s2.den as int);
    let e1 = 2 * d1 * a1 - 2 * l * n1;
    let e2 = 2 * d2 * a2 - 2 * l * n2;
    assert(n1 * e2 == 2 * (a2 * n1 * d2) - 2 * (l * n1 * n2)) by (nonlinear_arith)
        requires
            e2 == 2 * d2 * a2 - 2 * l * n2,
    ;
    assert(n2 * e1 == 2 * (a1 * n2 * d1) - 2 * (l * n1 * n2)) by (nonlinear_arith)
        requires
            e1 == 2 * d1 * a1 - 2 * l * n1,
    ;
    assert(-(n1 * d2) <= n1 * e2 <= n1 * d2) by (nonlinear_arith)
        requires
            n1 > 0,
            -d2 <= e2 <= d2,
    ;
    assert(-(n2 * d1) <= n2 * e1 <= n2 * d1) by (nonlinear_arith)
        requires
            n2 > 0,
            -d1 <= e1 <= d1,
    ;
}

/// Where the window is shorter than the title bar's exact physical height,
/// the main pane's height is clamped to zero.
pub proof fn lemma_short_window_clamps_main(
    window_size: PhysicalSize,
    s: Scale,
    titlebar_logical: u32,
    ask_enabled: bool,
    ask_logical: u32,
)
    requires
        s.wf(),
        window_size.height * s.den < titlebar_logical * s.num,
    ensures
        plan_spec(
            window_size,
            s,
            titlebar_logical,
            ask_enabled,
            ask_logical,
        ).main.rect.size.height == 0,
{
    let h = window_size.height as int;
    let x = 2 * titlebar_logical * s.num + s.den;
    let d = 2 * s.den;
    assert(x / d >= h) by (nonlinear_arith)
        requires
            d == 2 * s.den,
            s.den > 0,
            h >= 0,
            x == 2 * titlebar_logical * s.num + s.den,
            h * s.den < titlebar_logical * s.num,
    ;
    assert(physical_height_spec(titlebar_logical, s) >= h);
}

} // verus!
