use mini_mode::geometry::PhysicalPosition;
use mini_mode::geometry::PhysicalSize;
use mini_mode::geometry::ScaleFactor;
use mini_mode::toggle::WindowAction;
use mini_mode::toggle::WindowReading;
use mini_mode::toggle::WindowState;
use mini_mode::toggle::apply_plan;
use mini_mode::toggle::mode_logical_size;
use mini_mode::toggle::toggle_mini_mode;
use mini_mode::toggle::toggle_plan;

fn normal_state() -> WindowState {
    WindowState {
        position: PhysicalPosition { x: 100, y: 50 },
        size: PhysicalSize { width: 800, height: 600 },
        always_on_top: false,
        resizable: true,
    }
}

#[test]
fn mode_sizes_are_the_two_layouts() {
    let mini = mode_logical_size(true);
    assert_eq!((mini.width, mini.height), (340, 380));
    let normal = mode_logical_size(false);
    assert_eq!((normal.width, normal.height), (800, 600));
}

#[test]
fn mini_plan_resizes_moves_pins_then_locks() {
    let reading = WindowReading {
        position: PhysicalPosition { x: 100, y: 50 },
        size: PhysicalSize { width: 800, height: 600 },
        scale: ScaleFactor::new(1000).unwrap(),
    };
    let plan = toggle_plan(true, &Some(reading));
    assert_eq!(
        plan,
        vec![
            WindowAction::SetSize(PhysicalSize { width: 340, height: 380 }),
            WindowAction::SetPosition(PhysicalPosition { x: 560, y: 50 }),
            WindowAction::SetAlwaysOnTop(true),
            WindowAction::SetResizable(false),
        ]
    );
}

#[test]
fn restore_plan_unlocks_resizes_moves_then_unpins() {
    let reading = WindowReading {
        position: PhysicalPosition { x: 560, y: 50 },
        size: PhysicalSize { width: 340, height: 380 },
        scale: ScaleFactor::new(1000).unwrap(),
    };
    let plan = toggle_plan(false, &Some(reading));
    assert_eq!(
        plan,
        vec![
            WindowAction::SetResizable(true),
            WindowAction::SetSize(PhysicalSize { width: 800, height: 600 }),
            WindowAction::SetPosition(PhysicalPosition { x: 100, y: 50 }),
            WindowAction::SetAlwaysOnTop(false),
        ]
    );
}

#[test]
fn scaled_display_plans_physical_target() {
    let reading = WindowReading {
        position: PhysicalPosition { x: 100, y: 50 },
        size: PhysicalSize { width: 1600, height: 1200 },
        scale: ScaleFactor::new(2000).unwrap(),
    };
    let plan = toggle_plan(true, &Some(reading));
    assert_eq!(
        plan,
        vec![
            WindowAction::SetSize(PhysicalSize { width: 680, height: 760 }),
            WindowAction::SetPosition(PhysicalPosition { x: 1020, y: 50 }),
            WindowAction::SetAlwaysOnTop(true),
            WindowAction::SetResizable(false),
        ]
    );
}

#[test]
fn failed_reads_plan_nothing() {
    assert!(toggle_plan(true, &None).is_empty());
    assert!(toggle_plan(false, &None).is_empty());
}

#[test]
fn failed_reads_leave_the_window_alone() {
    let scale = ScaleFactor::new(1000).unwrap();
    let mut state = normal_state();
    toggle_mini_mode(&mut state, true, &scale, false);
    assert_eq!(state, normal_state());
}

#[test]
fn out_of_range_anchor_plans_nothing() {
    let reading = WindowReading {
        position: PhysicalPosition { x: i32::MAX, y: 0 },
        size: PhysicalSize { width: u32::MAX, height: 1 },
        scale: ScaleFactor::new(1).unwrap(),
    };
    assert!(toggle_plan(true, &Some(reading)).is_empty());
}

#[test]
fn empty_plan_changes_nothing() {
    let mut state = normal_state();
    let plan: Vec<WindowAction> = Vec::new();
    apply_plan(&mut state, &plan);
    assert_eq!(state, normal_state());
}

#[test]
fn mini_toggle_pins_on_top_and_locks() {
    let scale = ScaleFactor::new(1000).unwrap();
    let mut state = normal_state();
    toggle_mini_mode(&mut state, true, &scale, true);
    assert_eq!(
        state,
        WindowState {
            position: PhysicalPosition { x: 560, y: 50 },
            size: PhysicalSize { width: 340, height: 380 },
            always_on_top: true,
            resizable: false,
        }
    );
}

#[test]
fn restore_toggle_unpins_and_unlocks() {
    let scale = ScaleFactor::new(1000).unwrap();
    let mut state = normal_state();
    toggle_mini_mode(&mut state, true, &scale, true);
    toggle_mini_mode(&mut state, false, &scale, true);
    assert!(!state.always_on_top);
    assert!(state.resizable);
}

#[test]
fn round_trip_restores_normal_size() {
    let scale = ScaleFactor::new(1000).unwrap();
    let mut state = normal_state();
    toggle_mini_mode(&mut state, true, &scale, true);
    assert_eq!(state.size, PhysicalSize { width: 340, height: 380 });
    toggle_mini_mode(&mut state, false, &scale, true);
    assert_eq!(state.size, PhysicalSize { width: 800, height: 600 });
    // The position is recomputed by the corner-anchoring rule, not saved:
    // here the two shifts cancel and it lands back where it started.
    assert_eq!(state.position, PhysicalPosition { x: 100, y: 50 });
}

#[test]
fn round_trip_on_scaled_display() {
    let scale = ScaleFactor::new(2000).unwrap();
    let mut state = WindowState {
        position: PhysicalPosition { x: 100, y: 50 },
        size: PhysicalSize { width: 1600, height: 1200 },
        always_on_top: false,
        resizable: true,
    };
    toggle_mini_mode(&mut state, true, &scale, true);
    assert_eq!(state.size, PhysicalSize { width: 680, height: 760 });
    assert_eq!(state.position, PhysicalPosition { x: 1020, y: 50 });
    toggle_mini_mode(&mut state, false, &scale, true);
    assert_eq!(state.size, PhysicalSize { width: 1600, height: 1200 });
    assert_eq!(state.position, PhysicalPosition { x: 100, y: 50 });
}

#[test]
fn applying_a_plan_follows_its_order() {
    let reading = WindowReading {
        position: PhysicalPosition { x: 100, y: 50 },
        size: PhysicalSize { width: 800, height: 600 },
        scale: ScaleFactor::new(1000).unwrap(),
    };
    let plan = toggle_plan(true, &Some(reading));
    let mut state = normal_state();
    apply_plan(&mut state, &plan);
    assert_eq!(
        state,
        WindowState {
            position: PhysicalPosition { x: 560, y: 50 },
            size: PhysicalSize { width: 340, height: 380 },
            always_on_top: true,
            resizable: false,
        }
    );
}
