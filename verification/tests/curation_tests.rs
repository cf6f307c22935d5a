use iiif_viewer::curation::{CurationItem, WasmCurationViewer};

fn item(description: &str) -> CurationItem {
    let mut it = CurationItem::new(
        "m1".to_string(),
        "i1".to_string(),
        "L".to_string(),
        50,
        80,
        10,
        20,
        2000,
        1000,
    );
    it.set_description(description.to_string());
    it
}

/// origin (50,80), terminal (10,20), naturalWidth 2000, displayWidth 1000
/// (zoom 2) give x in [20,100] and y in [40,160].
#[test]
fn crop_math() {
    let it = item("");
    assert_eq!(it.get_x_start(), 20);
    assert_eq!(it.get_x_end(), 100);
    assert_eq!(it.get_y_start(), 40);
    assert_eq!(it.get_y_end(), 160);
}

/// Swapping origin and terminal gives the identical region.
#[test]
fn crop_math_is_order_independent() {
    let a = CurationItem::new(
        "m".to_string(),
        "i".to_string(),
        "l".to_string(),
        50,
        80,
        10,
        20,
        2000,
        1000,
    );
    let b = CurationItem::new(
        "m".to_string(),
        "i".to_string(),
        "l".to_string(),
        10,
        20,
        50,
        80,
        2000,
        1000,
    );
    assert_eq!(a.get_x_start(), b.get_x_start());
    assert_eq!(a.get_x_end(), b.get_x_end());
    assert_eq!(a.get_y_start(), b.get_y_start());
    assert_eq!(a.get_y_end(), b.get_y_end());
    assert!(a == b);
}

#[test]
fn crop_truncates_and_clamps() {
    // zoom 2/3: 10 * 2 / 3 = 6.67 truncates to 6; 5 * 2 / 3 = 3.33 to 3
    let it = CurationItem::new(
        "m".to_string(),
        "i".to_string(),
        "l".to_string(),
        5,
        5,
        10,
        10,
        2,
        3,
    );
    assert_eq!(it.get_x_start(), 3);
    assert_eq!(it.get_x_end(), 6);
    // a negative offset clamps to 0
    let neg = CurationItem::new(
        "m".to_string(),
        "i".to_string(),
        "l".to_string(),
        -4,
        -4,
        10,
        10,
        2,
        1,
    );
    assert_eq!(neg.get_x_start(), 0);
    assert_eq!(neg.get_x_end(), 20);
}

/// Items agreeing on every field are equal; changing only the description
/// makes them unequal.
#[test]
fn item_equality_is_full_and_description_sensitive() {
    let a = item("same");
    let b = item("same");
    assert!(a == b);
    let c = item("different");
    assert!(a != c);
}

#[test]
fn item_getters() {
    let it = item("note");
    assert_eq!(it.manifest_id(), "m1");
    assert_eq!(it.image_id(), "i1");
    assert_eq!(it.label(), "L");
    assert_eq!(it.description(), "note");
}

#[test]
fn item_json_exact_output() {
    let it = item("d");
    assert_eq!(
        it.json().unwrap(),
        r##"{"manifest_id":"m1","image_id":"i1","label":"L","crop":[{"start":20,"end":100},{"start":40,"end":160}],"description":"d"}"##
    );
}

#[test]
fn item_json_escapes_strings() {
    let mut it = CurationItem::new(
        "m\"q".to_string(),
        "i\\j".to_string(),
        "a\nb".to_string(),
        0,
        0,
        0,
        0,
        1,
        1,
    );
    it.set_description("tab\there \u{1} end".to_string());
    let json = it.json().unwrap();
    assert_eq!(
        json,
        "{\"manifest_id\":\"m\\\"q\",\"image_id\":\"i\\\\j\",\"label\":\"a\\nb\",\"crop\":[{\"start\":0,\"end\":0},{\"start\":0,\"end\":0}],\"description\":\"tab\\there \\u0001 end\"}"
    );
    // the same text serde_json would produce for these values
    let roundtrip: serde_json::Value = serde_json::from_str(&json).unwrap();
    assert_eq!(roundtrip["label"].as_str().unwrap(), "a\nb");
    assert_eq!(roundtrip["description"].as_str().unwrap(), "tab\there \u{1} end");
}

#[test]
fn curation_viewer_push_now_remove() {
    let mut v = WasmCurationViewer::new();
    assert_eq!(v.label(), "Curation");
    assert!(v.now().is_none());
    assert_eq!(v.image_label(), "");
    let a = item("a");
    let b = item("b");
    v.push(&a);
    v.push(&b);
    assert_eq!(v.image_label(), "L");
    assert!(v.now().unwrap() == a);
    v.remove(0);
    assert!(v.now().unwrap() == b);
    // removing out of range is a defined no-op
    v.remove(9);
    assert!(v.now().unwrap() == b);
}

#[test]
fn curation_show_locates_by_structural_equality() {
    let mut v = WasmCurationViewer::new();
    let a = item("a");
    let b = item("b");
    v.push(&a);
    v.push(&b);
    // the caller holds a value copy, not an index
    let copy_of_b = item("b");
    let located = v.show(&copy_of_b, true);
    assert_eq!(located, 1);
    assert_eq!(v.index, 1);
}

#[test]
fn curation_show_miss_keeps_current_index() {
    let mut v = WasmCurationViewer::new();
    v.push(&item("a"));
    let stranger = item("not stored");
    let located = v.show(&stranger, true);
    assert_eq!(located, 0);
    assert_eq!(v.index, 0);
}

#[test]
fn curation_show_without_asset_does_not_commit() {
    let mut v = WasmCurationViewer::new();
    v.push(&item("a"));
    v.push(&item("b"));
    let located = v.show(&item("b"), false);
    assert_eq!(located, 1);
    assert_eq!(v.index, 0);
}

#[test]
fn curation_navigation() {
    let mut v = WasmCurationViewer::new();
    v.push(&item("a"));
    v.push(&item("b"));
    v.push(&item("c"));
    // prev at zero is a defined no-op
    v.prev(true);
    assert_eq!(v.index, 0);
    v.next(true);
    assert_eq!(v.index, 1);
    v.show_last(true);
    assert_eq!(v.index, 2);
    // no item after the last one
    v.next(true);
    assert_eq!(v.index, 2);
    v.prev(true);
    assert_eq!(v.index, 1);
}

#[test]
fn curation_show_last_on_empty_is_a_noop() {
    let mut v = WasmCurationViewer::new();
    v.show_last(true);
    assert_eq!(v.index, 0);
}

#[test]
fn curation_get_index_by_src() {
    let mut v = WasmCurationViewer::new();
    let other = CurationItem::new(
        "m2".to_string(),
        "i2".to_string(),
        "L2".to_string(),
        0,
        0,
        1,
        1,
        1,
        1,
    );
    v.push(&item("x"));
    v.push(&other);
    assert_eq!(v.get_index_by_src("i2".to_string()), 1);
    assert_eq!(v.get_index_by_src("i1".to_string()), 0);
    assert_eq!(v.get_index_by_src("missing".to_string()), 0);
}

#[test]
fn curation_pan_round_trip() {
    let mut v = WasmCurationViewer::new();
    v.push(&item("a"));
    v.move_mousedown(0, 0);
    v.move_mousemove(5, 5);
    v.move_mouseup();
    assert_eq!(v.items[0].original_x, 5);
    assert_eq!(v.items[0].original_y, 5);
    v.move_mousedown(0, 0);
    let p = v.move_mousemove(0, 0).unwrap();
    assert_eq!(p.x, 5);
    assert_eq!(p.y, 5);
}

#[test]
fn curation_pan_without_drag_is_a_noop() {
    let mut v = WasmCurationViewer::new();
    v.push(&item("a"));
    assert!(v.move_mousemove(3, 3).is_none());
    v.move_mouseup();
    v.move_mouseup();
    assert_eq!(v.items[0].position_x, 0);
    assert_eq!(v.items[0].original_x, 0);
}
