use pointer_shell::lifecycle::{OverlayContextData, OverlayManager};
use pointer_shell::placement::DisplayGeometry;

fn context(text: &str, has_screenshot: bool) -> OverlayContextData {
    OverlayContextData { selected_text: text.to_owned(), has_screenshot }
}

#[test]
fn new_manager_is_empty() {
    let m = OverlayManager::new();
    assert!(m.get_context().is_none());
    assert!(!m.window_present);
}

#[test]
fn hide_twice_is_idempotent() {
    let mut m = OverlayManager::new();
    let plan = m.begin_show(500, 400, Some(DisplayGeometry::new(1200, 800)), Some(context("a", false)));
    assert!(!plan.destroy_existing);
    let shown = m.finish_show(Ok(()));
    assert_eq!(shown, Ok("Overlay shown".to_owned()));

    let (close_first, reply_first) = m.hide_overlay();
    assert!(close_first);
    assert_eq!(reply_first, Ok("Overlay hidden".to_owned()));
    assert!(m.get_context().is_none());

    let (close_second, reply_second) = m.hide_overlay();
    assert!(!close_second);
    assert_eq!(reply_second, Ok("Overlay hidden".to_owned()));
    assert!(m.get_context().is_none());
}

#[test]
fn unparseable_show_keeps_prior_context_and_hide_clears_it() {
    let mut m = OverlayManager::new();
    m.begin_show(500, 400, None, Some(context("kept", true)));
    let _ = m.finish_show(Ok(()));

    // A payload that failed to parse arrives as None: the stored context
    // stays exactly as it was.
    m.begin_show(600, 300, None, None);
    let _ = m.finish_show(Ok(()));
    let stored = m.get_context().as_ref().expect("context should persist");
    assert_eq!(stored.selected_text, "kept");
    assert!(stored.has_screenshot);

    let _ = m.hide_overlay();
    assert!(m.get_context().is_none());
}

#[test]
fn show_stores_valid_context() {
    let mut m = OverlayManager::new();
    m.begin_show(500, 400, None, Some(context("first", false)));
    let _ = m.finish_show(Ok(()));
    m.begin_show(500, 400, None, Some(context("second", true)));
    let _ = m.finish_show(Ok(()));
    let stored = m.get_context().as_ref().expect("context stored");
    assert_eq!(stored.selected_text, "second");
    assert!(stored.has_screenshot);
}

#[test]
fn repeated_show_destroys_prior_window() {
    let mut m = OverlayManager::new();
    let first = m.begin_show(500, 400, None, Some(context("a", false)));
    assert!(!first.destroy_existing);
    let _ = m.finish_show(Ok(()));
    assert!(m.window_present);

    let second = m.begin_show(700, 200, None, Some(context("b", false)));
    assert!(second.destroy_existing);
    assert!(!m.window_present);
    let _ = m.finish_show(Ok(()));
    assert!(m.window_present);

    let third = m.begin_show(100, 100, None, None);
    assert!(third.destroy_existing);
}

#[test]
fn show_plan_carries_placement() {
    let mut m = OverlayManager::new();
    let plan = m.begin_show(950, 400, Some(DisplayGeometry::new(1000, 800)), None);
    assert_eq!(plan.rect.x, 380);
    assert_eq!(plan.rect.y, 400);
    assert_eq!(plan.rect.width, 600);
    assert_eq!(plan.rect.height, 80);
}

#[test]
fn failed_creation_aborts_show_with_reason() {
    let mut m = OverlayManager::new();
    m.begin_show(500, 400, None, Some(context("still here", false)));
    let r = m.finish_show(Err("window system refused".to_owned()));
    assert_eq!(r, Err("Failed to create overlay: window system refused".to_owned()));
    assert!(!m.window_present);
    // The context committed by begin_show survives the failed creation.
    let stored = m.get_context().as_ref().expect("context stored");
    assert_eq!(stored.selected_text, "still here");
}
