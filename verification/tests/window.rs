use ability::{plan_os_window, WindowConfig, WindowIdAllocator};

#[test]
fn window_ids_start_at_one_and_count_up() {
    let mut ids = WindowIdAllocator::new();
    assert_eq!(ids.allocate(), 1);
    assert_eq!(ids.allocate(), 2);
    assert_eq!(ids.allocate(), 3);
}

#[test]
fn window_config_has_fixed_geometry() {
    let c = WindowConfig::new("main".to_string(), 2, 7);
    assert_eq!(c.name, "main");
    assert_eq!(c.window_type, 2);
    assert_eq!(c.window_id, 7);
    assert_eq!((c.width, c.height, c.x, c.y), (800, 600, 100, 100));
}

#[test]
fn window_plan_needs_helper_and_env() {
    for (helper, env) in [(false, false), (false, true), (true, false)] {
        let e = plan_os_window(helper, env, "w".to_string(), 0, 1).unwrap_err();
        assert_eq!(e.reason, "Helper or Env not initialized");
    }
    let c = plan_os_window(true, true, "settings".to_string(), 3, 42).unwrap();
    assert_eq!(c.name, "settings");
    assert_eq!(c.window_type, 3);
    assert_eq!(c.window_id, 42);
    assert_eq!((c.width, c.height, c.x, c.y), (800, 600, 100, 100));
}
