use rewrite_pad::launch::AppStore;
use rewrite_pad::panels::{BottomBar, CloseModal, MainPanel, TopMenu};
use rewrite_pad::session::{CloseDecision, DocumentSession};
use rewrite_pad::zoom::{step_for, zoom_font_scale, zoom_percent, ZoomStep};

#[test]
fn status_labels_follow_the_session() {
    let bar = BottomBar::new();
    let mut d = DocumentSession::from_launch("a.txt".to_string(), Ok("héllo".to_string()));
    assert_eq!(bar.saved_label(&d), "File: Saved");
    assert_eq!(bar.symbol_count(&d), 5);
    d.edit("héllo wörld".to_string());
    assert_eq!(bar.saved_label(&d), "File: Not saved");
    assert_eq!(bar.symbol_count(&d), 11);
}

#[test]
fn text_area_change_marks_modified() {
    let panel = MainPanel::new();
    let mut d = DocumentSession::from_launch("a.txt".to_string(), Ok("x".to_string()));
    panel.apply_edit(&mut d, false, "x".to_string());
    assert!(!d.is_modified());
    panel.apply_edit(&mut d, true, "xy".to_string());
    assert!(d.is_modified());
    assert_eq!(d.buffer(), "xy");
}

#[test]
fn close_prompt_shows_while_pending() {
    let modal = CloseModal::new();
    let _menu = TopMenu::new();
    let mut d = DocumentSession::new();
    assert!(!modal.is_open(&d));
    d.new_document();
    assert_eq!(d.request_close(), CloseDecision::Deferred);
    assert!(modal.is_open(&d));
}

#[test]
fn launch_path_is_the_first_argument() {
    let args = vec!["pad".to_string(), "notes.txt".to_string(), "extra".to_string()];
    assert_eq!(AppStore::from_args(&args).launch_path(), Some("notes.txt".to_string()));
    assert_eq!(AppStore::from_args(&vec!["pad".to_string()]).launch_path(), None);
    assert_eq!(AppStore::from_args(&vec![]).launch_path(), None);
    assert_eq!(AppStore::from_args(&vec!["pad".to_string(), String::new()]).launch_path(), None);
}

#[test]
fn zoom_helpers_round_and_clamp() {
    assert_eq!(step_for(std::cmp::Ordering::Greater), Some(ZoomStep::In));
    assert_eq!(step_for(std::cmp::Ordering::Less), Some(ZoomStep::Out));
    assert_eq!(step_for(std::cmp::Ordering::Equal), None);
    assert_eq!(zoom_percent(35, ZoomStep::In), 39);
    assert_eq!(zoom_percent(25, ZoomStep::Out), 23);
    assert_eq!(zoom_percent(21, ZoomStep::Out), 20);
    assert_eq!(zoom_percent(440, ZoomStep::In), 450);
    assert_eq!(zoom_font_scale(70000, ZoomStep::In), 72000);
    assert_eq!(zoom_font_scale(8500, ZoomStep::Out), 8000);
    assert_eq!(zoom_font_scale(15, ZoomStep::Out), 8000);
}
