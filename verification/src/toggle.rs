//! The mini-mode toggle: target sizes for the two modes, the ordered
//! window-manager actions that carry a toggle out, and a model of the
//! window state they act on.

use vstd::prelude::*;

verus! {

use crate::geometry::LogicalSize;
use crate::geometry::PhysicalPosition;
use crate::geometry::PhysicalSize;
use crate::geometry::ScaleFactor;
use crate::geometry::SCALE_ONE;
use crate::geometry::anchor_top_right;
use crate::geometry::anchored_x;
use crate::geometry::scale_dim;
use vstd::arithmetic::div_mod::lemma_div_is_ordered;
use vstd::arithmetic::mul::lemma_mul_nonnegative;
use vstd::arithmetic::mul::lemma_mul_upper_bound;

/// Logical width of the window in mini mode.
pub const MINI_WIDTH: u32 = 340;

/// Logical height of the window in mini mode.
pub const MINI_HEIGHT: u32 = 380;

/// Logical width of the window in normal mode.
pub const NORMAL_WIDTH: u32 = 800;

/// Logical height of the window in normal mode.
pub const NORMAL_HEIGHT: u32 = 600;

/// The logical size a mode asks for: the mini layout for `is_mini`,
/// the normal layout otherwise.
pub open spec fn spec_mode_logical_size(is_mini: bool) -> LogicalSize {
    if is_mini {
        LogicalSize { width: MINI_WIDTH, height: MINI_HEIGHT }
    } else {
        LogicalSize { width: NORMAL_WIDTH, height: NORMAL_HEIGHT }
    }
}

/// Returns the logical size the given mode asks for.
pub fn mode_logical_size(is_mini: bool) -> (r: LogicalSize)
    ensures
        r == spec_mode_logical_size(is_mini),
        r.width <= NORMAL_WIDTH,
        r.height <= NORMAL_HEIGHT,
{
    if is_mini {
        LogicalSize { width: MINI_WIDTH, height: MINI_HEIGHT }
    } else {
        LogicalSize { width: NORMAL_WIDTH, height: NORMAL_HEIGHT }
    }
}

/// Bounds on a scaled dimension: a logical dimension no larger than the
/// normal width stays within `u32` under every well-formed scale factor.
proof fn lemma_scale_dim_bounds(logical: int, millis: int)
    requires
        0 <= logical <= 4000,
        1 <= millis <= 1_000_000,
    ensures
        0 <= scale_dim(logical, millis) <= u32::MAX,
{
    lemma_mul_nonnegative(logical, millis);
    lemma_mul_upper_bound(logical, 4000, millis, 1_000_000);
    lemma_div_is_ordered(0, logical * millis + 500, 1000);
    lemma_div_is_ordered(logical * millis + 500, 4_000_000_500int, 1000);
}

/// What the three window reads yield when they all succeed: the outer
/// position and outer size in physical pixels, and the display's scale.
#[derive(Clone, Copy, PartialEq, Eq, Structural, Debug)]
pub struct WindowReading {
    pub position: PhysicalPosition,
    pub size: PhysicalSize,
    pub scale: ScaleFactor,
}

impl WindowReading {
    /// A reading is well formed when its scale factor is.
    pub open spec fn wf(self) -> bool {
        self.scale.wf()
    }
}

/// One imperative call against the window manager.
#[derive(Clone, Copy, PartialEq, Eq, Structural, Debug)]
pub enum WindowAction {
    SetResizable(bool),
    SetSize(PhysicalSize),
    SetPosition(PhysicalPosition),
    SetAlwaysOnTop(bool),
}

/// The physical size a mode asks for under a scale factor: the mode's
/// logical size with both dimensions scaled and rounded.
pub open spec fn spec_target_size(is_mini: bool, scale: ScaleFactor) -> PhysicalSize {
    let logical = spec_mode_logical_size(is_mini);
    PhysicalSize {
        width: scale_dim(logical.width as int, scale.millis as int) as u32,
        height: scale_dim(logical.height as int, scale.millis as int) as u32,
    }
}

/// Under a well-formed scale factor the target size's fields are exactly
/// the scaled dimensions, unclipped.
pub proof fn lemma_target_size(is_mini: bool, scale: ScaleFactor)
    requires
        scale.wf(),
    ensures
        spec_target_size(is_mini, scale).width == scale_dim(
            spec_mode_logical_size(is_mini).width as int,
            scale.millis as int,
        ),
        spec_target_size(is_mini, scale).height == scale_dim(
            spec_mode_logical_size(is_mini).height as int,
            scale.millis as int,
        ),
{
    let logical = spec_mode_logical_size(is_mini);
    lemma_scale_dim_bounds(logical.width as int, scale.millis as int);
    lemma_scale_dim_bounds(logical.height as int, scale.millis as int);
}

/// The ordered window-manager calls of one toggle. Entering mini mode
/// resizes, moves, pins on top, then locks resizing; leaving it unlocks
/// resizing first, then resizes, moves, and unpins. The order avoids the
/// window manager clamping a resize while resizing is still locked.
pub open spec fn spec_toggle_actions(
    is_mini: bool,
    target: PhysicalSize,
    pos: PhysicalPosition,
) -> Seq<WindowAction> {
    if is_mini {
        seq![
            WindowAction::SetSize(target),
            WindowAction::SetPosition(pos),
            WindowAction::SetAlwaysOnTop(true),
            WindowAction::SetResizable(false),
        ]
    } else {
        seq![
            WindowAction::SetResizable(true),
            WindowAction::SetSize(target),
            WindowAction::SetPosition(pos),
            WindowAction::SetAlwaysOnTop(false),
        ]
    }
}

/// The whole plan of one toggle attempt. Failed reads plan nothing, so a
/// failed attempt mutates no window state. Successful reads plan the
/// mode's actions around the target size and the corner-anchored
/// position; if that position leaves the coordinate range nothing is
/// planned either.
pub open spec fn spec_toggle_plan(is_mini: bool, reads: Option<WindowReading>) -> Seq<
    WindowAction,
> {
    match reads {
        Option::None => Seq::empty(),
        Option::Some(g) => {
            let target = spec_target_size(is_mini, g.scale);
            let nx = anchored_x(g.position.x as int, g.size.width as int, target.width as int);
            if i32::MIN <= nx <= i32::MAX {
                spec_toggle_actions(
                    is_mini,
                    target,
                    PhysicalPosition { x: nx as i32, y: g.position.y },
                )
            } else {
                Seq::empty()
            }
        },
    }
}

/// Plans one toggle: given the mode to enter and the outcome of the three
/// window reads, returns exactly the calls `spec_toggle_plan` lays out, in
/// that order.
pub fn toggle_plan(is_mini: bool, reads: &Option<WindowReading>) -> (r: Vec<WindowAction>)
    requires
        (reads matches Some(g) ==> g.wf()),
    ensures
        r@ == spec_toggle_plan(is_mini, *reads),
{
    match reads {
        Option::None => {
            let r: Vec<WindowAction> = Vec::new();
            assert(r@ =~= spec_toggle_plan(is_mini, *reads));
            r
        },
        Option::Some(g) => {
            let logical = mode_logical_size(is_mini);
            proof {
                lemma_scale_dim_bounds(logical.width as int, g.scale.millis as int);
                lemma_scale_dim_bounds(logical.height as int, g.scale.millis as int);
                lemma_target_size(is_mini, g.scale);
            }
            let target = logical.to_physical(&g.scale);
            assert(target == spec_target_size(is_mini, g.scale));
            match anchor_top_right(&g.position, &g.size, &target) {
                Option::None => {
                    let r: Vec<WindowAction> = Vec::new();
                    assert(r@ =~= spec_toggle_plan(is_mini, *reads));
                    r
                },
                Option::Some(new_pos) => {
                    let mut r: Vec<WindowAction> = Vec::new();
                    if is_mini {
                        r.push(WindowAction::SetSize(target));
                        r.push(WindowAction::SetPosition(new_pos));
                        r.push(WindowAction::SetAlwaysOnTop(true));
                        r.push(WindowAction::SetResizable(false));
                    } else {
                        r.push(WindowAction::SetResizable(true));
                        r.push(WindowAction::SetSize(target));
                        r.push(WindowAction::SetPosition(new_pos));
                        r.push(WindowAction::SetAlwaysOnTop(false));
                    }
                    assert(r@ =~= spec_toggle_plan(is_mini, *reads));
                    r
                },
            }
        },
    }
}

/// The window state a toggle acts on: outer position and size in physical
/// pixels, and the two window-manager flags the toggle flips.
#[derive(Clone, Copy, PartialEq, Eq, Structural, Debug)]
pub struct WindowState {
    pub position: PhysicalPosition,
    pub size: PhysicalSize,
    pub always_on_top: bool,
    pub resizable: bool,
}

/// What one window-manager call does to the window state: each call sets
/// its one field and leaves the others alone.
pub open spec fn spec_apply_action(s: WindowState, action: WindowAction) -> WindowState {
    match action {
        WindowAction::SetResizable(b) => WindowState {
            position: s.position,
            size: s.size,
            always_on_top: s.always_on_top,
            resizable: b,
        },
        WindowAction::SetSize(size) => WindowState {
            position: s.position,
            size,
            always_on_top: s.always_on_top,
            resizable: s.resizable,
        },
        WindowAction::SetPosition(p) => WindowState {
            position: p,
            size: s.size,
            always_on_top: s.always_on_top,
            resizable: s.resizable,
        },
        WindowAction::SetAlwaysOnTop(b) => WindowState {
            position: s.position,
            size: s.size,
            always_on_top: b,
            resizable: s.resizable,
        },
    }
}

/// The window state after a sequence of calls, applied in order.
pub open spec fn spec_apply_actions(s: WindowState, actions: Seq<WindowAction>) -> WindowState
    decreases actions.len(),
{
    if actions.len() == 0 {
        s
    } else {
        spec_apply_action(spec_apply_actions(s, actions.drop_last()), actions.last())
    }
}

/// Performs one window-manager call against the window state.
pub fn apply_action(state: &mut WindowState, action: WindowAction)
    ensures
        *final(state) == spec_apply_action(*old(state), action),
{
    match action {
        WindowAction::SetResizable(b) => {
            state.resizable = b;
        },
        WindowAction::SetSize(size) => {
            state.size = size;
        },
        WindowAction::SetPosition(p) => {
            state.position = p;
        },
        WindowAction::SetAlwaysOnTop(b) => {
            state.always_on_top = b;
        },
    }
}

/// Performs a whole plan against the window state, in order.
pub fn apply_plan(state: &mut WindowState, plan: &Vec<WindowAction>)
    ensures
        *final(state) == spec_apply_actions(*old(state), plan@),
{
    let ghost s0: WindowState = *state;
    let mut i: usize = 0;
    while i < plan.len()
        invariant
            i <= plan.len(),
            *state == spec_apply_actions(s0, plan@.take(i as int)),
        decreases plan.len() - i,
    {
        apply_action(state, plan[i]);
        proof {
            assert(plan@.take(i + 1).drop_last() =~= plan@.take(i as int));
            assert(plan@.take(i + 1).last() == plan@[i as int]);
        }
        i = i + 1;
    }
    proof {
        assert(plan@.take(plan@.len() as int) =~= plan@);
    }
}

/// The reading a window in the given state yields when all three reads
/// succeed on a display with the given scale factor.
pub open spec fn reading_of(s: WindowState, scale: ScaleFactor) -> WindowReading {
    WindowReading { position: s.position, size: s.size, scale }
}

/// Whether the corner-anchored position of a toggle from this reading
/// stays within the windowing system's coordinate range.
pub open spec fn spec_anchor_fits(is_mini: bool, g: WindowReading) -> bool {
    i32::MIN <= anchored_x(
        g.position.x as int,
        g.size.width as int,
        spec_target_size(is_mini, g.scale).width as int,
    ) <= i32::MAX
}

/// Applying a toggle's actions leaves the window at the planned position
/// and target size, pinned on top exactly when mini mode was entered, and
/// resizable exactly when it was left — whatever the window state was
/// before, and in both action orders.
pub proof fn lemma_toggle_actions_applied(
    s: WindowState,
    is_mini: bool,
    target: PhysicalSize,
    pos: PhysicalPosition,
)
    ensures
        spec_apply_actions(s, spec_toggle_actions(is_mini, target, pos)) == (WindowState {
            position: pos,
            size: target,
            always_on_top: is_mini,
            resizable: !is_mini,
        }),
{
    reveal_with_fuel(spec_apply_actions, 5);
    let acts = spec_toggle_actions(is_mini, target, pos);
    if is_mini {
        assert(acts.drop_last() =~= seq![
            WindowAction::SetSize(target),
            WindowAction::SetPosition(pos),
            WindowAction::SetAlwaysOnTop(true),
        ]);
        assert(acts.drop_last().drop_last() =~= seq![
            WindowAction::SetSize(target),
            WindowAction::SetPosition(pos),
        ]);
        assert(acts.drop_last().drop_last().drop_last() =~= seq![WindowAction::SetSize(target)]);
        assert(acts.drop_last().drop_last().drop_last().drop_last() =~= Seq::<
            WindowAction,
        >::empty());
    } else {
        assert(acts.drop_last() =~= seq![
            WindowAction::SetResizable(true),
            WindowAction::SetSize(target),
            WindowAction::SetPosition(pos),
        ]);
        assert(acts.drop_last().drop_last() =~= seq![
            WindowAction::SetResizable(true),
            WindowAction::SetSize(target),
        ]);
        assert(acts.drop_last().drop_last().drop_last() =~= seq![
            WindowAction::SetResizable(true),
        ]);
        assert(acts.drop_last().drop_last().drop_last().drop_last() =~= Seq::<
            WindowAction,
        >::empty());
    }
}

/// When any of the three reads fails, the planned toggle performs no
/// window-manager call at all: every window state is left exactly as it
/// was.
pub proof fn lemma_failed_reads_mutate_nothing(s: WindowState, is_mini: bool)
    ensures
        spec_toggle_plan(is_mini, Option::None) == Seq::<WindowAction>::empty(),
        spec_apply_actions(s, spec_toggle_plan(is_mini, Option::None)) == s,
{
}

/// After a successful toggle the window is always on top exactly when
/// mini mode was entered: whatever held before, the most recent toggle
/// decides the flag.
pub proof fn lemma_always_on_top_tracks_mode(s: WindowState, is_mini: bool, g: WindowReading)
    requires
        g.wf(),
        spec_anchor_fits(is_mini, g),
    ensures
        spec_apply_actions(s, spec_toggle_plan(is_mini, Option::Some(g))).always_on_top
            == is_mini,
        spec_apply_actions(s, spec_toggle_plan(is_mini, Option::Some(g))).resizable == !is_mini,
{
    let target = spec_target_size(is_mini, g.scale);
    let nx = anchored_x(g.position.x as int, g.size.width as int, target.width as int);
    lemma_toggle_actions_applied(
        s,
        is_mini,
        target,
        PhysicalPosition { x: nx as i32, y: g.position.y },
    );
}

/// Toggling into mini mode and back restores the normal target size: the
/// second toggle reads the geometry the first one left behind, and its
/// resize lands on the normal mode's logical size scaled to the display,
/// 800 by 600 logical pixels. The position is not restored from memory
/// but recomputed by the corner-anchoring rule.
pub proof fn lemma_round_trip_restores_size(s: WindowState, scale: ScaleFactor)
    requires
        scale.wf(),
        spec_anchor_fits(true, reading_of(s, scale)),
        spec_anchor_fits(
            false,
            reading_of(
                spec_apply_actions(s, spec_toggle_plan(true, Option::Some(reading_of(s, scale)))),
                scale,
            ),
        ),
    ensures
        ({
            let mini = spec_apply_actions(
                s,
                spec_toggle_plan(true, Option::Some(reading_of(s, scale))),
            );
            let restored = spec_apply_actions(
                mini,
                spec_toggle_plan(false, Option::Some(reading_of(mini, scale))),
            );
            &&& restored.size == spec_target_size(false, scale)
            &&& (scale.millis == SCALE_ONE ==> restored.size == (PhysicalSize {
                width: NORMAL_WIDTH,
                height: NORMAL_HEIGHT,
            }))
        }),
{
    let g1 = reading_of(s, scale);
    let t1 = spec_target_size(true, scale);
    let nx1 = anchored_x(g1.position.x as int, g1.size.width as int, t1.width as int);
    lemma_toggle_actions_applied(
        s,
        true,
        t1,
        PhysicalPosition { x: nx1 as i32, y: g1.position.y },
    );
    let mini = spec_apply_actions(s, spec_toggle_plan(true, Option::Some(g1)));
    let g2 = reading_of(mini, scale);
    let t2 = spec_target_size(false, scale);
    let nx2 = anchored_x(g2.position.x as int, g2.size.width as int, t2.width as int);
    lemma_toggle_actions_applied(
        mini,
        false,
        t2,
        PhysicalPosition { x: nx2 as i32, y: g2.position.y },
    );
    if scale.millis == SCALE_ONE {
        assert(scale_dim(NORMAL_WIDTH as int, SCALE_ONE as int) == NORMAL_WIDTH as int);
        assert(scale_dim(NORMAL_HEIGHT as int, SCALE_ONE as int) == NORMAL_HEIGHT as int);
    }
}

/// One toggle attempt against a window state on a display with the given
/// scale factor: mirrors the whole operation, reads included. `reads_ok`
/// tells whether all three window reads succeeded; when any failed, the
/// state is left untouched. When they succeeded, the window ends at the
/// target size for the mode, at the corner-anchored position, on top and
/// locked exactly when mini mode was entered — unless the anchored
/// position leaves the coordinate range, in which case nothing is done.
pub fn toggle_mini_mode(state: &mut WindowState, is_mini: bool, scale: &ScaleFactor, reads_ok: bool)
    requires
        scale.wf(),
    ensures
        !reads_ok ==> *final(state) == *old(state),
        reads_ok ==> *final(state) == spec_apply_actions(
            *old(state),
            spec_toggle_plan(is_mini, Option::Some(reading_of(*old(state), *scale))),
        ),
        reads_ok && spec_anchor_fits(is_mini, reading_of(*old(state), *scale)) ==> *final(state)
            == (WindowState {
            position: PhysicalPosition {
                x: anchored_x(
                    old(state).position.x as int,
                    old(state).size.width as int,
                    spec_target_size(is_mini, *scale).width as int,
                ) as i32,
                y: old(state).position.y,
            },
            size: spec_target_size(is_mini, *scale),
            always_on_top: is_mini,
            resizable: !is_mini,
        }),
        reads_ok && !spec_anchor_fits(is_mini, reading_of(*old(state), *scale)) ==> *final(state)
            == *old(state),
{
    if !reads_ok {
        return ;
    }
    let reading = WindowReading { position: state.position, size: state.size, scale: *scale };
    let reads: Option<WindowReading> = Some(reading);
    let plan = toggle_plan(is_mini, &reads);
    apply_plan(state, &plan);
    proof {
        if spec_anchor_fits(is_mini, reading) {
            let target = spec_target_size(is_mini, reading.scale);
            let nx = anchored_x(
                reading.position.x as int,
                reading.size.width as int,
                target.width as int,
            );
            lemma_toggle_actions_applied(
                *old(state),
                is_mini,
                target,
                PhysicalPosition { x: nx as i32, y: reading.position.y },
            );
        }
    }
}

} // verus!
