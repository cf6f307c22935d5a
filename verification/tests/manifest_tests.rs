use iiif_viewer::iiif_manifest::{Label, Manifest, ParseError};

fn hokusai_manifest() -> String {
    r##"{
        "@context": "http://iiif.io/api/presentation/2/context.json",
        "@id": "https://iiif.europeana.eu/presentation/hokusai/manifest",
        "@type": "sc:Manifest",
        "label": [{"@value": "Thirty-six Views of Mount Fuji"}],
        "license": "http://creativecommons.org/publicdomain/mark/1.0/",
        "sequences": [{
            "@type": "sc:Sequence",
            "canvases": [{
                "@id": "https://iiif.europeana.eu/presentation/hokusai/canvas/p1",
                "@type": "sc:Canvas",
                "label": "p. 1",
                "width": 1000,
                "height": 700,
                "thumbnail": {
                    "@id": "https://example.org/hokusai/thumb1.jpg",
                    "@type": "dctypes:Image",
                    "format": "image/jpeg"
                },
                "images": [{
                    "@type": "oa:Annotation",
                    "resource": {
                        "@id": "https://example.org/hokusai/full1.jpg",
                        "@type": "dctypes:Image",
                        "service": {
                            "@context": "http://iiif.io/api/image/2/context.json",
                            "@id": "https://example.org/hokusai/service",
                            "profile": "http://iiif.io/api/image/2/level1.json"
                        }
                    }
                }]
            }]
        }]
    }"##
    .to_string()
}

fn hokusai_manifest2() -> String {
    r##"{
        "@context": "http://iiif.io/api/presentation/2/context.json",
        "@id": "https://iiif.europeana.eu/presentation/hokusai2/manifest",
        "@type": "sc:Manifest",
        "label": "The Great Wave off Kanagawa",
        "attribution": "Rijksmuseum",
        "sequences": [{
            "@type": "sc:Sequence",
            "canvases": [{
                "@id": "https://iiif.europeana.eu/presentation/hokusai2/canvas/p1",
                "@type": "sc:Canvas",
                "label": "recto",
                "width": 800,
                "height": 600,
                "images": [{
                    "@type": "oa:Annotation",
                    "resource": {
                        "@id": "https://example.org/hokusai2/full1.jpg",
                        "@type": "dctypes:Image"
                    }
                }]
            }]
        }]
    }"##
    .to_string()
}

#[test]
fn parse_europeana_test() {
    let manifest = Manifest::from_str(&hokusai_manifest());
    match &manifest {
        Err(e) => println!("{:?}", &e),
        _ => {}
    }
    assert!(manifest.is_ok());
}

#[test]
fn parse_europeana_test2() {
    let manifest = Manifest::from_str(&hokusai_manifest2());
    match &manifest {
        Err(e) => println!("{:?}", &e),
        _ => {}
    }
    assert!(manifest.is_ok());
}

/// Two sequences, the first with two canvases and the second with one,
/// flatten depth first: (S1,C1), (S1,C2), (S2,C1).
#[test]
fn flatten_depth_first_order() {
    let text = r##"{
        "label": "M",
        "sequences": [
            {"canvases": [
                {"label": "C1", "images": [{"resource": {"@id": "s1c1"}}]},
                {"label": "C2", "images": [{"resource": {"@id": "s1c2"}}]}
            ]},
            {"canvases": [
                {"label": "C1", "images": [{"resource": {"@id": "s2c1"}}]}
            ]}
        ]
    }"##;
    let manifest = Manifest::from_str(text).unwrap();
    let images = manifest.get_viewer_images();
    assert_eq!(images.len(), 3);
    assert_eq!(images[0].src, "s1c1");
    assert_eq!(images[1].src, "s1c2");
    assert_eq!(images[2].src, "s2c1");
    assert_eq!(images[0].label, "C1");
    assert_eq!(images[1].label, "C2");
    assert_eq!(images[2].label, "C1");
}

#[test]
fn flatten_multiple_images_per_canvas() {
    let text = r##"{
        "label": "M",
        "sequences": [
            {"canvases": [
                {"label": "C", "images": [
                    {"resource": {"@id": "a"}},
                    {"resource": {"@id": "b"}},
                    {"resource": {"@id": "c"}}
                ]}
            ]}
        ]
    }"##;
    let images = Manifest::from_str(text).unwrap().get_viewer_images();
    assert_eq!(images.len(), 3);
    assert_eq!(images[0].src, "a");
    assert_eq!(images[1].src, "b");
    assert_eq!(images[2].src, "c");
}

#[test]
fn thumbnail_propagates_to_every_image_of_the_canvas() {
    let text = r##"{
        "label": "M",
        "sequences": [
            {"canvases": [
                {"label": "C1",
                 "thumbnail": {"@id": "t1"},
                 "images": [{"resource": {"@id": "a"}}, {"resource": {"@id": "b"}}]},
                {"label": "C2", "images": [{"resource": {"@id": "c"}}]}
            ]}
        ]
    }"##;
    let images = Manifest::from_str(text).unwrap().get_viewer_images();
    assert_eq!(images[0].thumbnail.as_deref(), Some("t1"));
    assert_eq!(images[1].thumbnail.as_deref(), Some("t1"));
    assert_eq!(images[2].thumbnail, None);
}

#[test]
fn label_string_dialect() {
    let text = r##"{"label": "Foo", "sequences": []}"##;
    let manifest = Manifest::from_str(text).unwrap();
    match &manifest.label {
        Label::Text(s) => assert_eq!(s, "Foo"),
        Label::Entries(_) => panic!("expected the string dialect"),
    }
}

#[test]
fn label_array_dialect() {
    let text = r##"{"label": [{"@value": "Bar"}, {"@value": "Baz"}], "sequences": []}"##;
    let manifest = Manifest::from_str(text).unwrap();
    match &manifest.label {
        Label::Entries(es) => {
            assert_eq!(es.len(), 2);
            assert_eq!(es[0].value, "Bar");
            assert_eq!(es[1].value, "Baz");
        }
        Label::Text(_) => panic!("expected the list dialect"),
    }
}

#[test]
fn error_invalid_json() {
    assert_eq!(Manifest::from_str("not json").unwrap_err(), ParseError::InvalidJson);
}

#[test]
fn error_not_an_object() {
    assert_eq!(Manifest::from_str("[1, 2]").unwrap_err(), ParseError::NotAnObject);
}

#[test]
fn error_missing_label() {
    assert_eq!(Manifest::from_str(r##"{"sequences": []}"##).unwrap_err(), ParseError::MissingLabel);
}

#[test]
fn error_bad_label_number() {
    assert_eq!(
        Manifest::from_str(r##"{"label": 7, "sequences": []}"##).unwrap_err(),
        ParseError::BadLabel
    );
}

#[test]
fn error_bad_label_entry_without_value() {
    assert_eq!(
        Manifest::from_str(r##"{"label": [{"lang": "ja"}], "sequences": []}"##).unwrap_err(),
        ParseError::BadLabel
    );
}

#[test]
fn error_missing_sequences() {
    assert_eq!(Manifest::from_str(r##"{"label": "x"}"##).unwrap_err(), ParseError::MissingSequences);
}

#[test]
fn error_sequences_not_an_array() {
    assert_eq!(
        Manifest::from_str(r##"{"label": "x", "sequences": {}}"##).unwrap_err(),
        ParseError::BadSequences
    );
}

#[test]
fn error_malformed_sequence_element() {
    assert_eq!(
        Manifest::from_str(r##"{"label": "x", "sequences": [5]}"##).unwrap_err(),
        ParseError::BadSequence
    );
}

#[test]
fn error_canvas_without_label() {
    let text = r##"{"label": "x", "sequences": [{"canvases": [{"images": []}]}]}"##;
    assert_eq!(Manifest::from_str(text).unwrap_err(), ParseError::BadSequence);
}

#[test]
fn error_thumbnail_without_id() {
    let text = r##"{"label": "x", "sequences": [{"canvases": [
        {"label": "C", "thumbnail": {"format": "image/jpeg"}, "images": []}
    ]}]}"##;
    assert_eq!(Manifest::from_str(text).unwrap_err(), ParseError::BadSequence);
}

#[test]
fn error_image_without_resource_id() {
    let text = r##"{"label": "x", "sequences": [{"canvases": [
        {"label": "C", "images": [{"resource": {"format": "image/jpeg"}}]}
    ]}]}"##;
    assert_eq!(Manifest::from_str(text).unwrap_err(), ParseError::BadSequence);
}

#[test]
fn unconsumed_fields_are_accepted() {
    let text = r##"{
        "label": "x",
        "unknown": {"deep": [1, 2, {"three": null}]},
        "sequences": [{"extra": true, "canvases": []}]
    }"##;
    assert!(Manifest::from_str(text).is_ok());
}

#[test]
fn image_src_getter() {
    let text = r##"{"label": "M", "sequences": [{"canvases": [
        {"label": "C", "images": [{"resource": {"@id": "the-uri"}}]}
    ]}]}"##;
    let manifest = Manifest::from_str(text).unwrap();
    assert_eq!(manifest.sequences[0].canvases[0].images[0].src(), "the-uri");
}
