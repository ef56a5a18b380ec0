use pane_layout::geometry::{
    compute_plan, compute_plan_clamped, physical_height, GeometryError, LogicalPosition, PaneId,
    PaneRect, PhysicalSize, Scale,
};
use pane_layout::registry::{PaneError, PaneRegistry};
use pane_layout::session::{focus_pane, PaneCommand, ViewportState, WindowSession};

fn size(width: u32, height: u32) -> PhysicalSize {
    PhysicalSize { width, height }
}

fn scale(num: u32, den: u32) -> Scale {
    Scale::new(num, den).unwrap()
}

fn session(height: u32, ask_enabled: bool) -> WindowSession {
    let viewport = ViewportState {
        scale: scale(2, 1),
        window_size: size(1200, height),
        titlebar_logical: 32,
        ask_logical: 120,
    };
    let mut s = WindowSession::new(viewport, ask_enabled);
    s.attach_pane(PaneId::TitleBar, 1).unwrap();
    s.attach_pane(PaneId::MainContent, 2).unwrap();
    s.attach_pane(PaneId::AskOverlay, 3).unwrap();
    s
}

fn find(cmds: &[PaneCommand], id: PaneId) -> PaneCommand {
    *cmds.iter().find(|c| c.id == id).unwrap()
}

#[test]
fn plan_with_ask_mode_off() {
    let p = compute_plan(size(1200, 800), scale(2, 1), 32, false, 120).unwrap();
    assert_eq!(p.titlebar.rect.size, size(1200, 64));
    assert_eq!(p.ask.rect.size, size(1200, 0));
    assert_eq!(p.main.rect.size, size(1200, 736));
    assert_eq!(p.titlebar.rect.position, LogicalPosition { x: 0, y: 0, den: 1 });
    assert_eq!(p.main.rect.position, LogicalPosition { x: 0, y: 32, den: 1 });
    // the empty ask pane sits on the bottom edge: 800 / 2 = 400 logical units
    assert_eq!(p.ask.rect.position, LogicalPosition { x: 0, y: 800, den: 2 });
}

#[test]
fn plan_with_ask_mode_on() {
    let p = compute_plan(size(1200, 800), scale(2, 1), 32, true, 120).unwrap();
    assert_eq!(p.ask.rect.size.height, 240);
    assert_eq!(p.main.rect.size.height, 496);
    assert_eq!(p.titlebar.rect.size.height, 64);
    // 800 / 2 - 120 = 280 logical units
    assert_eq!(p.ask.rect.position, LogicalPosition { x: 0, y: 560, den: 2 });
}

#[test]
fn resize_keeps_ask_pane_at_bottom() {
    let mut s = session(800, true);
    let cmds = s.on_resize(size(1200, 900));
    assert_eq!(cmds.len(), 3);
    let main = find(&cmds, PaneId::MainContent);
    let ask = find(&cmds, PaneId::AskOverlay);
    let titlebar = find(&cmds, PaneId::TitleBar);
    assert_eq!(main.rect.size.height, 596);
    assert_eq!(ask.rect.size.height, 240);
    assert_eq!(titlebar.rect.size.height, 64);
    // 900 / 2 - 120 = 330 logical units
    assert_eq!(ask.rect.position, LogicalPosition { x: 0, y: 660, den: 2 });
    assert_eq!(s.viewport().window_size, size(1200, 900));
}

#[test]
fn attach_twice_is_duplicate() {
    let mut reg = PaneRegistry::new();
    assert_eq!(reg.attach(PaneId::MainContent, 7), Ok(()));
    assert_eq!(reg.attach(PaneId::MainContent, 8), Err(PaneError::DuplicatePane));
    assert_eq!(reg.get(PaneId::MainContent), Some(7));
    let rect = PaneRect {
        position: LogicalPosition { x: 0, y: 32, den: 1 },
        size: size(100, 50),
    };
    assert_eq!(reg.apply(PaneId::MainContent, rect, true), Ok(()));
    assert_eq!(reg.rect(PaneId::MainContent), Some(rect));
}

#[test]
fn host_rejection_does_not_stop_the_pass() {
    let mut s = session(800, true);
    let cmds = s.relayout();
    let accepted: Vec<bool> = cmds.iter().map(|c| c.id != PaneId::MainContent).collect();
    assert_eq!(s.complete_pass(&cmds, &accepted), Err(PaneError::HostRejected));
    let panes = s.panes();
    assert_eq!(panes.rect(PaneId::MainContent), None);
    assert_eq!(panes.rect(PaneId::TitleBar), Some(find(&cmds, PaneId::TitleBar).rect));
    assert_eq!(panes.rect(PaneId::AskOverlay), Some(find(&cmds, PaneId::AskOverlay).rect));
}

#[test]
fn missing_pane_is_not_found() {
    let viewport = ViewportState {
        scale: scale(1, 1),
        window_size: size(800, 600),
        titlebar_logical: 32,
        ask_logical: 120,
    };
    let mut s = WindowSession::new(viewport, false);
    s.attach_pane(PaneId::TitleBar, 1).unwrap();
    let cmds = s.relayout();
    assert_eq!(find(&cmds, PaneId::MainContent).handle, None);
    assert_eq!(find(&cmds, PaneId::TitleBar).handle, Some(1));
    let accepted = vec![true; cmds.len()];
    assert_eq!(s.complete_pass(&cmds, &accepted), Err(PaneError::PaneNotFound));
    assert_eq!(s.panes().rect(PaneId::TitleBar), Some(find(&cmds, PaneId::TitleBar).rect));
}

#[test]
fn full_pass_succeeds_and_replays_identically() {
    let mut s = session(800, false);
    let cmds = s.relayout();
    let accepted = vec![true; cmds.len()];
    assert_eq!(s.complete_pass(&cmds, &accepted), Ok(()));
    let once = *s.panes();
    let again = s.relayout();
    assert_eq!(again, cmds);
    assert_eq!(s.complete_pass(&again, &accepted), Ok(()));
    for id in [PaneId::TitleBar, PaneId::MainContent, PaneId::AskOverlay] {
        assert_eq!(s.panes().rect(id), once.rect(id));
        assert_eq!(s.panes().get(id), once.get(id));
    }
}

#[test]
fn plan_is_deterministic() {
    let a = compute_plan(size(1366, 768), scale(5, 4), 32, true, 120);
    let b = compute_plan(size(1366, 768), scale(5, 4), 32, true, 120);
    assert_eq!(a, b);
}

#[test]
fn panes_tile_the_window() {
    for (h, num, den, ask) in [(800, 2, 1, true), (768, 5, 4, true), (1000, 3, 2, false), (241, 1, 1, true)] {
        let p = compute_plan(size(640, h), scale(num, den), 32, ask, 120).unwrap();
        let total = p.titlebar.rect.size.height + p.main.rect.size.height + p.ask.rect.size.height;
        assert_eq!(total, h);
    }
}

#[test]
fn taller_window_grows_main_pane_only() {
    let p = compute_plan(size(1200, 800), scale(3, 2), 32, true, 120).unwrap();
    let q = compute_plan(size(1200, 837), scale(3, 2), 32, true, 120).unwrap();
    assert_eq!(q.main.rect.size.height, p.main.rect.size.height + 37);
    assert_eq!(q.titlebar.rect.size, p.titlebar.rect.size);
    assert_eq!(q.ask.rect.size, p.ask.rect.size);
}

#[test]
fn ask_toggle_moves_height_and_back() {
    let mut s = session(800, false);
    let off = s.plan();
    s.on_ask_mode_changed(true);
    let on = s.plan();
    assert_eq!(on.ask.rect.size.height, 240);
    assert_eq!(off.main.rect.size.height - on.main.rect.size.height, 240);
    assert_eq!(on.titlebar, off.titlebar);
    s.on_ask_mode_changed(false);
    assert_eq!(s.plan(), off);
    assert!(!s.ask_enabled());
}

#[test]
fn ask_height_follows_scale() {
    // 33 * 1.25 = 41.25 and 33 * 1.5 = 49.5, which rounds away from zero
    let a1 = compute_plan(size(800, 600), scale(5, 4), 0, true, 33).unwrap().ask.rect.size.height;
    let a2 = compute_plan(size(800, 600), scale(3, 2), 0, true, 33).unwrap().ask.rect.size.height;
    assert_eq!(a1, 41);
    assert_eq!(a2, 50);
    let ratio = (a2 as f64 / a1 as f64) - 1.5 / 1.25;
    assert!(ratio.abs() < 0.05);
}

#[test]
fn short_window_clamps_main_pane() {
    assert_eq!(
        compute_plan(size(1200, 50), scale(2, 1), 32, false, 120),
        Err(GeometryError::Negative)
    );
    let p = compute_plan_clamped(size(1200, 50), scale(2, 1), 32, false, 120);
    assert_eq!(p.main.rect.size.height, 0);
    assert_eq!(p.titlebar.rect.size.height, 64);
    let mut s = session(800, true);
    let cmds = s.on_resize(size(1200, 200));
    assert_eq!(find(&cmds, PaneId::MainContent).rect.size.height, 0);
}

#[test]
fn rounding_and_saturation() {
    assert_eq!(physical_height(32, scale(2, 1)), 64);
    assert_eq!(physical_height(1, scale(1, 2)), 1);
    assert_eq!(physical_height(3, scale(1, 2)), 2);
    assert_eq!(physical_height(1, scale(1, 3)), 0);
    assert_eq!(physical_height(u32::MAX, scale(2, 1)), u32::MAX);
    assert_eq!(physical_height(0, scale(7, 3)), 0);
}

#[test]
fn scale_must_be_positive() {
    assert_eq!(Scale::new(0, 1), None);
    assert_eq!(Scale::new(1, 0), None);
    assert_eq!(Scale::new(5, 4), Some(Scale { num: 5, den: 4 }));
}

#[test]
fn plan_entries_in_order() {
    let p = compute_plan_clamped(size(800, 600), scale(1, 1), 32, true, 120);
    let ids: Vec<PaneId> = p.entries().iter().map(|e| e.id).collect();
    assert_eq!(ids, vec![PaneId::TitleBar, PaneId::MainContent, PaneId::AskOverlay]);
}

#[test]
fn focus_follows_ask_mode() {
    assert_eq!(focus_pane(true), PaneId::AskOverlay);
    assert_eq!(focus_pane(false), PaneId::MainContent);
}

#[test]
fn rejected_apply_keeps_old_rect() {
    let mut reg = PaneRegistry::new();
    let rect = PaneRect {
        position: LogicalPosition { x: 0, y: 0, den: 1 },
        size: size(10, 10),
    };
    assert_eq!(reg.apply(PaneId::AskOverlay, rect, true), Err(PaneError::PaneNotFound));
    reg.attach(PaneId::AskOverlay, 3).unwrap();
    assert_eq!(reg.apply(PaneId::AskOverlay, rect, false), Err(PaneError::HostRejected));
    assert_eq!(reg.rect(PaneId::AskOverlay), None);
}
