use iiif_viewer::viewer::{Direction, Viewer};

fn two_image_manifest() -> String {
    r##"{
        "label": "M",
        "sequences": [{"canvases": [
            {"label": "first", "images": [{"resource": {"@id": "img0"}}]},
            {"label": "second", "images": [{"resource": {"@id": "img1"}}]}
        ]}]
    }"##
    .to_string()
}

#[test]
fn new_viewer_is_empty() {
    let v = Viewer::new();
    assert_eq!(v.size(), 0);
    assert_eq!(v.index, 0);
    assert_eq!(v.label(), "None");
    assert_eq!(v.image_label(), "");
}

#[test]
fn set_manifest_accepts_and_resets_index() {
    let mut v = Viewer::new();
    assert!(v.set_manifest(two_image_manifest()));
    assert_eq!(v.size(), 2);
    assert_eq!(v.index, 0);
    // move to the second image, then replace the collection
    v.show(1, false);
    v.show(1, true);
    assert_eq!(v.index, 1);
    assert!(v.set_manifest(two_image_manifest()));
    assert_eq!(v.index, 0);
}

#[test]
fn set_manifest_failure_retains_previous_state() {
    let mut v = Viewer::new();
    assert!(v.set_manifest(two_image_manifest()));
    v.show(1, false);
    v.show(1, true);
    assert!(!v.set_manifest("{broken".to_string()));
    assert_eq!(v.size(), 2);
    assert_eq!(v.index, 1);
    assert_eq!(v.label(), "M");
}

/// `show` on a not-yet-requested image reports "not ready" and leaves the
/// index alone; once the asset reports complete, a later `show` reports
/// "ready" and commits the index.
#[test]
fn show_state_machine() {
    let mut v = Viewer::new();
    assert!(v.set_manifest(two_image_manifest()));
    assert!(!v.is_loading(1));
    assert!(!v.show(1, false));
    assert_eq!(v.index, 0);
    assert!(v.is_loading(1));
    assert!(!v.is_loaded(1, false));
    // still loading: not ready, index unchanged
    assert!(!v.show(1, false));
    assert_eq!(v.index, 0);
    // the asset reports complete
    assert!(v.is_loaded(1, true));
    assert!(v.show(1, true));
    assert_eq!(v.index, 1);
}

#[test]
fn show_out_of_range_is_a_noop() {
    let mut v = Viewer::new();
    assert!(v.set_manifest(two_image_manifest()));
    assert!(!v.show(7, true));
    assert_eq!(v.index, 0);
    assert!(!v.is_loading(0));
}

#[test]
fn get_index_by_src_finds_first_match() {
    let mut v = Viewer::new();
    assert!(v.set_manifest(two_image_manifest()));
    assert_eq!(v.get_index_by_src("img1".to_string()), 1);
    assert_eq!(v.get_index_by_src("img0".to_string()), 0);
}

/// A URI no image has leaves the previously current index unchanged.
#[test]
fn get_index_by_src_miss_returns_current_index() {
    let mut v = Viewer::new();
    assert!(v.set_manifest(two_image_manifest()));
    v.show(1, false);
    v.show(1, true);
    assert_eq!(v.index, 1);
    assert_eq!(v.get_index_by_src("nowhere".to_string()), 1);
}

/// `prev()` at index 0 underflows nothing: the index stays 0.
#[test]
fn prev_at_zero_is_a_noop() {
    let mut v = Viewer::new();
    assert!(v.set_manifest(two_image_manifest()));
    assert_eq!(v.index, 0);
    assert!(!v.prev(true));
    assert_eq!(v.index, 0);
}

#[test]
fn next_walks_forward_and_stops_at_the_end() {
    let mut v = Viewer::new();
    assert!(v.set_manifest(two_image_manifest()));
    assert!(!v.next(false));
    assert!(v.next(true));
    assert_eq!(v.index, 1);
    // no image after the last one
    assert!(!v.next(true));
    assert_eq!(v.index, 1);
    // the first image was never requested, so one prev() only starts its load
    assert!(!v.prev(true));
    assert_eq!(v.index, 1);
    assert!(v.prev(true));
    assert_eq!(v.index, 0);
}

/// `panStart(0,0); panMove(5,5)` puts the image at (5,5) relative to its
/// prior baseline; after `panEnd`, a new drag that moves by zero returns
/// exactly to the committed baseline.
#[test]
fn pan_round_trip() {
    let mut v = Viewer::new();
    assert!(v.set_manifest(two_image_manifest()));
    v.show(0, false);
    v.show(0, true);
    v.move_mousedown(0, 0);
    let p = v.move_mousemove(5, 5).unwrap();
    assert_eq!(p.x, 5);
    assert_eq!(p.y, 5);
    v.move_mouseup();
    assert_eq!(v.images[0].original_x, 5);
    assert_eq!(v.images[0].original_y, 5);
    v.move_mousedown(0, 0);
    let q = v.move_mousemove(0, 0).unwrap();
    assert_eq!(q.x, 5);
    assert_eq!(q.y, 5);
}

#[test]
fn pan_without_active_drag_is_a_noop() {
    let mut v = Viewer::new();
    assert!(v.set_manifest(two_image_manifest()));
    assert!(v.move_mousemove(9, 9).is_none());
    assert_eq!(v.images[0].position_x, 0);
    // mouseup with no drag active is idempotent
    v.move_mouseup();
    v.move_mouseup();
    assert_eq!(v.images[0].original_x, 0);
}

#[test]
fn second_mousedown_overwrites_the_anchor() {
    let mut v = Viewer::new();
    assert!(v.set_manifest(two_image_manifest()));
    v.move_mousedown(100, 100);
    v.move_mousedown(10, 10);
    let p = v.move_mousemove(13, 14).unwrap();
    assert_eq!(p.x, 3);
    assert_eq!(p.y, 4);
}

#[test]
fn load_marks_an_image_requested() {
    let mut v = Viewer::new();
    assert!(v.set_manifest(two_image_manifest()));
    v.load(0, false);
    assert!(v.is_loading(0));
    assert!(!v.is_loading(1));
    // loading an already loaded image changes nothing
    v.load(0, true);
    assert!(v.is_loading(0));
}

#[test]
fn load_state_queries_out_of_range_default_to_true() {
    let v = Viewer::new();
    assert!(v.is_loading(3));
    assert!(v.is_loaded(3, false));
}

#[test]
fn image_label_of_current_image() {
    let mut v = Viewer::new();
    assert!(v.set_manifest(two_image_manifest()));
    assert_eq!(v.image_label(), "first");
    v.show(1, false);
    v.show(1, true);
    assert_eq!(v.image_label(), "second");
}

#[test]
fn manifest_label_string_dialect_displays_itself() {
    let mut v = Viewer::new();
    assert!(v.set_manifest(r##"{"label": "Foo", "sequences": []}"##.to_string()));
    assert_eq!(v.label(), "Foo");
}

#[test]
fn manifest_label_array_dialect_displays_first_entry() {
    let mut v = Viewer::new();
    let text = r##"{"label": [{"@value": "Bar"}, {"@value": "Baz"}], "sequences": []}"##;
    assert!(v.set_manifest(text.to_string()));
    assert_eq!(v.label(), "Bar");
}

#[test]
fn manifest_label_empty_array_displays_none() {
    let mut v = Viewer::new();
    assert!(v.set_manifest(r##"{"label": [], "sequences": []}"##.to_string()));
    assert_eq!(v.label(), "None");
}

#[test]
fn direction_classification() {
    assert_eq!(Direction::from(100, 10), Direction::Left);
    assert_eq!(Direction::from(100, 24), Direction::Left);
    assert_eq!(Direction::from(100, 25), Direction::Center);
    assert_eq!(Direction::from(100, 75), Direction::Center);
    assert_eq!(Direction::from(100, 76), Direction::Right);
}
