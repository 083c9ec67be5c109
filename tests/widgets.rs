use robrix::image_viewer::{ImageViewer, ImageViewerAction, ViewerCommand};
use robrix::shared::auto_fit_image::{
    choose_status, passes_on, FitEvent, FitStep, ImageStatus, RobrixAutoFitImage,
};
use robrix::shared::image_viewer::ImageViewer as UriPopup;
use robrix::shared::text_or_image::{
    HitResponse, ImageHit, TextOrImage, TextOrImageAction, TextOrImageStatus,
};

fn is_close(cmds: &[ViewerCommand]) -> bool {
    cmds.len() == 2
        && matches!(cmds[0], ViewerCommand::ClearTexture)
        && matches!(cmds[1], ViewerCommand::Redraw)
}

#[test]
fn modal_starts_hidden() {
    let v = ImageViewer::new();
    assert!(!v.visible);
}

#[test]
fn modal_show_opens_and_loads_bytes() {
    let mut v = ImageViewer::new();
    let cmds = v.handle_action(ImageViewerAction::Show(vec![1, 2, 3]));
    assert!(v.visible);
    assert_eq!(cmds.len(), 3);
    assert!(matches!(cmds[0], ViewerCommand::ClearTexture));
    assert!(matches!(cmds[1], ViewerCommand::Redraw));
    match &cmds[2] {
        ViewerCommand::Load(data) => assert_eq!(data, &vec![1u8, 2, 3]),
        _ => panic!("expected a load"),
    }
}

#[test]
fn modal_idle_action_changes_nothing() {
    let mut v = ImageViewer::new();
    let cmds = v.handle_action(ImageViewerAction::Idle);
    assert!(cmds.is_empty());
    assert!(!v.visible);
}

#[test]
fn modal_background_tap_closes() {
    let mut v = ImageViewer::new();
    v.handle_action(ImageViewerAction::Show(vec![9]));
    let cmds = v.handle_finger_up(true, false);
    assert!(!v.visible);
    assert!(is_close(&cmds));
}

#[test]
fn modal_tap_on_image_keeps_it_open() {
    let mut v = ImageViewer::new();
    v.handle_action(ImageViewerAction::Show(vec![9]));
    assert!(v.handle_finger_up(true, true).is_empty());
    assert!(v.visible);
    assert!(v.handle_finger_up(false, false).is_empty());
    assert!(v.visible);
}

#[test]
fn modal_close_button_closes() {
    let mut v = ImageViewer::new();
    v.handle_action(ImageViewerAction::Show(vec![]));
    let cmds = v.close_clicked();
    assert!(!v.visible);
    assert!(is_close(&cmds));
}

#[test]
fn modal_redraws_only_after_decoding() {
    let v = ImageViewer::new();
    assert!(v.redraw_after_load::<String>(&Ok(())));
    assert!(!v.redraw_after_load(&Err("bad image".to_string())));
}

#[test]
fn fit_default_status_is_natural_size() {
    assert_eq!(ImageStatus::default(), ImageStatus::Size);
    assert_eq!(choose_status(true), ImageStatus::Size);
    assert_eq!(choose_status(false), ImageStatus::Smallest);
}

#[test]
fn fit_without_texture_drops_event() {
    let mut m = RobrixAutoFitImage::new();
    let step = m.handle_event(false, FitEvent::WindowGeomChange, false);
    assert_eq!(step, FitStep::NoTexture);
    assert!(!passes_on(step));
    assert!(!m.target_known);
    assert_eq!(m.status, ImageStatus::Size);
}

#[test]
fn fit_first_event_records_target() {
    let mut m = RobrixAutoFitImage::new();
    let step = m.handle_event(true, FitEvent::Other, false);
    assert_eq!(step, FitStep::RecordTarget);
    assert!(passes_on(step));
    assert!(m.target_known);
    assert_eq!(m.status, ImageStatus::Size);
}

#[test]
fn fit_narrow_view_scales_then_wide_view_restores() {
    let mut m = RobrixAutoFitImage::new();
    m.handle_event(true, FitEvent::Other, false);
    assert_eq!(
        m.handle_event(true, FitEvent::WindowGeomChange, false),
        FitStep::Apply(ImageStatus::Smallest)
    );
    assert_eq!(m.status, ImageStatus::Smallest);
    assert_eq!(m.handle_event(true, FitEvent::Actions, false), FitStep::Keep);
    assert_eq!(
        m.handle_event(true, FitEvent::Actions, true),
        FitStep::Apply(ImageStatus::Size)
    );
    assert_eq!(m.status, ImageStatus::Size);
}

#[test]
fn fit_ignores_other_events_for_layout() {
    let mut m = RobrixAutoFitImage::new();
    m.handle_event(true, FitEvent::Actions, true);
    assert_eq!(m.handle_event(true, FitEvent::Other, false), FitStep::Keep);
    assert_eq!(m.status, ImageStatus::Size);
}

#[test]
fn fit_target_size_needs_texture() {
    let mut m = RobrixAutoFitImage::new();
    assert!(!m.set_target_size(false));
    assert!(!m.target_known);
    assert!(m.set_target_size(true));
    assert!(m.target_known);
}

#[test]
fn fit_set_visible() {
    let mut m = RobrixAutoFitImage::new();
    m.set_visible(false);
    assert!(!m.visible);
    m.set_visible(true);
    assert!(m.visible);
}

#[test]
fn popup_records_and_replaces_locators() {
    let mut p = UriPopup::new();
    assert!(p.uri_of(7).is_none());
    p.insert_date(7, "mxc://example.org/a".to_string());
    p.insert_date(8, "mxc://example.org/b".to_string());
    assert_eq!(p.uri_of(7).map(|s| s.as_str()), Some("mxc://example.org/a"));
    p.insert_date(7, "mxc://example.org/c".to_string());
    assert_eq!(p.uri_of(7).map(|s| s.as_str()), Some("mxc://example.org/c"));
    assert_eq!(p.uri_of(8).map(|s| s.as_str()), Some("mxc://example.org/b"));
}

#[test]
fn popup_close_button_hides() {
    let mut p = UriPopup::new();
    assert!(p.is_visible());
    p.insert_date(1, "mxc://example.org/x".to_string());
    p.close_clicked();
    assert!(!p.is_visible());
    assert!(p.uri_of(1).is_some());
}

#[test]
fn toggle_starts_with_text() {
    let t = TextOrImage::new();
    assert_eq!(t.status(), TextOrImageStatus::Text);
    assert_eq!(TextOrImageStatus::default(), TextOrImageStatus::Text);
}

#[test]
fn toggle_show_text_sets_label() {
    let mut t = TextOrImage::new();
    t.show_text("Loading...");
    assert_eq!(t.status(), TextOrImageStatus::Text);
    assert_eq!(t.text, "Loading...");
}

#[test]
fn toggle_show_image_success() {
    let mut t = TextOrImage::new();
    t.show_text("Loading...");
    let r: Result<(), String> = t.show_image(Ok((640, 480)));
    assert!(r.is_ok());
    assert_eq!(t.status(), TextOrImageStatus::Image);
    assert_eq!(t.size_in_pixels, (640, 480));
}

#[test]
fn toggle_show_image_failure_shows_message() {
    let mut t = TextOrImage::new();
    t.show_image::<String>(Ok((10, 20))).unwrap();
    let r = t.show_image(Err("decode error".to_string()));
    assert_eq!(r, Err("decode error".to_string()));
    assert_eq!(t.status(), TextOrImageStatus::Text);
    assert_eq!(t.text, "Failed to display image.");
    assert_eq!(t.size_in_pixels, (10, 20));
}

#[test]
fn toggle_hits_ignored_while_text() {
    let mut t = TextOrImage::new();
    t.set_original_mxc_uri_and_timeline_image_data(&"mxc://h/i".to_string(), vec![1]);
    assert!(matches!(t.handle_hit(ImageHit::Tap), HitResponse::Ignore));
    assert!(matches!(t.handle_hit(ImageHit::FingerDown), HitResponse::Ignore));
}

#[test]
fn toggle_tap_without_locator_does_nothing() {
    let mut t = TextOrImage::new();
    t.show_image::<()>(Ok((1, 1))).unwrap();
    assert!(matches!(t.handle_hit(ImageHit::FingerDown), HitResponse::Focus));
    assert!(matches!(t.handle_hit(ImageHit::Tap), HitResponse::Ignore));
    assert!(matches!(t.handle_hit(ImageHit::Other), HitResponse::Ignore));
}

#[test]
fn toggle_tap_emits_click_with_locator() {
    let mut t = TextOrImage::new();
    t.show_image::<()>(Ok((1, 1))).unwrap();
    t.set_original_mxc_uri_and_timeline_image_data(&"mxc://h/i".to_string(), vec![4, 5]);
    match t.handle_hit(ImageHit::Tap) {
        HitResponse::Emit(TextOrImageAction::Click(uri)) => assert_eq!(uri, "mxc://h/i"),
        _ => panic!("expected a click"),
    }
    let v = t.image_value.as_ref().unwrap();
    assert_eq!(v.timeline_image_data, vec![4u8, 5]);
}
