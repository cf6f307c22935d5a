//! IIIF Presentation-API manifests: the consumed fields of the nested
//! sequence → canvas → image structure, extraction from a parsed JSON
//! document, and the depth-first flattening into one ordered image list.
//!
//! Only the fields the viewer reads are kept: the manifest's label (in either
//! of its two dialects), each canvas's label and optional thumbnail, and each
//! image's resource URI. Everything else in a manifest is accepted and
//! ignored.

use vstd::prelude::*;

use crate::json::{
    obj_get, json_of, json_view, json_views, lemma_json_views, parse_json, JsonV, JsonValue,
};
use crate::viewer::{fresh_for_all, lemma_fresh_push, ViewerImage};

verus! {

// ---------------------------------------------------------------------------
// The manifest's own shape.
// ---------------------------------------------------------------------------

/// One localized label entry: the `@value` member of an entry in the
/// list-shaped label dialect.
#[derive(Debug)]
pub struct EuropeanaContent {
    pub value: String,
}

impl View for EuropeanaContent {
    type V = Seq<char>;

    open spec fn view(&self) -> Seq<char> {
        self.value@
    }
}

/// A manifest label in either dialect: a plain string, or a list of
/// localized entries.
#[derive(Debug)]
pub enum Label {
    Text(String),
    Entries(Vec<EuropeanaContent>),
}

/// Spec-level shape of [`Label`].
#[verifier::ext_equal]
pub enum LabelV {
    Text(Seq<char>),
    Entries(Seq<Seq<char>>),
}

/// The `@value` strings of a list of entries, in order.
pub open spec fn entries_view(es: Seq<EuropeanaContent>) -> Seq<Seq<char>> {
    es.map(|_i: int, e: EuropeanaContent| e@)
}

impl View for Label {
    type V = LabelV;

    open spec fn view(&self) -> LabelV {
        match self {
            Label::Text(s) => LabelV::Text(s@),
            Label::Entries(es) => LabelV::Entries(entries_view(es@)),
        }
    }
}

impl LabelV {
    /// The single display string a label collapses to: the string itself, or
    /// the first localized entry, or `None` when the list is empty.
    pub open spec fn display(self) -> Seq<char> {
        match self {
            LabelV::Text(s) => s,
            LabelV::Entries(es) => if es.len() > 0 {
                es[0]
            } else {
                "None"@
            },
        }
    }
}

/// A canvas thumbnail: its `@id` URI.
#[derive(Debug)]
pub struct Thumbnail {
    pub id: String,
}

impl View for Thumbnail {
    type V = Seq<char>;

    open spec fn view(&self) -> Seq<char> {
        self.id@
    }
}

/// One image of a canvas: the URI of its resource.
#[derive(Debug)]
pub struct Image {
    pub resource_id: String,
}

impl View for Image {
    type V = Seq<char>;

    open spec fn view(&self) -> Seq<char> {
        self.resource_id@
    }
}

impl Image {
    /// The image's source URI.
    pub fn src(&self) -> (r: &String)
        ensures
            r@ == self@,
    {
        &self.resource_id
    }
}

/// One canvas: its label, an optional thumbnail, and its images.
#[derive(Debug)]
pub struct Canvas {
    pub label: String,
    pub thumbnail: Option<Thumbnail>,
    pub images: Vec<Image>,
}

/// Spec-level shape of [`Canvas`].
#[verifier::ext_equal]
pub struct CanvasV {
    pub label: Seq<char>,
    pub thumbnail: Option<Seq<char>>,
    pub images: Seq<Seq<char>>,
}

/// The URIs of a list of images, in order.
pub open spec fn images_view(ims: Seq<Image>) -> Seq<Seq<char>> {
    ims.map(|_i: int, im: Image| im@)
}

impl View for Canvas {
    type V = CanvasV;

    open spec fn view(&self) -> CanvasV {
        CanvasV {
            label: self.label@,
            thumbnail: match self.thumbnail {
                Some(ref t) => Some(t@),
                None => None,
            },
            images: images_view(self.images@),
        }
    }
}

/// One sequence: its canvases.
#[derive(Debug)]
pub struct Sequence {
    pub canvases: Vec<Canvas>,
}

/// Spec-level shape of [`Sequence`].
#[verifier::ext_equal]
pub struct SequenceV {
    pub canvases: Seq<CanvasV>,
}

/// The shapes of a list of canvases, in order.
pub open spec fn canvases_view(cs: Seq<Canvas>) -> Seq<CanvasV> {
    cs.map(|_i: int, c: Canvas| c@)
}

impl View for Sequence {
    type V = SequenceV;

    open spec fn view(&self) -> SequenceV {
        SequenceV { canvases: canvases_view(self.canvases@) }
    }
}

/// A manifest reduced to what the viewer consumes: its label and its
/// sequences.
#[derive(Debug)]
pub struct Manifest {
    pub label: Label,
    pub sequences: Vec<Sequence>,
}

/// Spec-level shape of [`Manifest`].
#[verifier::ext_equal]
pub struct ManifestV {
    pub label: LabelV,
    pub sequences: Seq<SequenceV>,
}

/// The shapes of a list of sequences, in order.
pub open spec fn sequences_view(ss: Seq<Sequence>) -> Seq<SequenceV> {
    ss.map(|_i: int, s: Sequence| s@)
}

impl View for Manifest {
    type V = ManifestV;

    open spec fn view(&self) -> ManifestV {
        ManifestV { label: self.label@, sequences: sequences_view(self.sequences@) }
    }
}

/// Why a manifest was rejected.
#[derive(Clone, Copy, Debug, PartialEq, Eq, Structural)]
pub enum ParseError {
    /// The text is not well-formed JSON.
    InvalidJson,
    /// The document is not a JSON object.
    NotAnObject,
    /// The object has no `label` member.
    MissingLabel,
    /// The `label` member is neither a string nor a list of `@value`
    /// entries.
    BadLabel,
    /// The object has no `sequences` member.
    MissingSequences,
    /// The `sequences` member is not an array.
    BadSequences,
    /// A sequence, canvas, thumbnail or image inside `sequences` is
    /// malformed.
    BadSequence,
}

// ---------------------------------------------------------------------------
// Flattening into the ordered image list.
// ---------------------------------------------------------------------------

/// What one manifest image amounts to, once flattened: its source URI, the
/// display label of its canvas, and that canvas's optional thumbnail.
/// Produced once per image; the flattening order over these defines the
/// index space every other component uses.
#[verifier::ext_equal]
pub struct ImageDescriptor {
    pub src: Seq<char>,
    pub label: Seq<char>,
    pub thumbnail: Option<Seq<char>>,
}

/// The descriptors of one canvas, in the canvas's image order; each carries
/// the canvas's label and thumbnail.
pub open spec fn canvas_images(c: CanvasV) -> Seq<ImageDescriptor> {
    c.images.map(
        |_i: int, src: Seq<char>| ImageDescriptor { src, label: c.label, thumbnail: c.thumbnail },
    )
}

/// The descriptors of a list of canvases, canvas by canvas, in order.
pub open spec fn images_of_canvases(cs: Seq<CanvasV>) -> Seq<ImageDescriptor>
    decreases cs.len(),
{
    if cs.len() == 0 {
        Seq::empty()
    } else {
        images_of_canvases(cs.drop_last()) + canvas_images(cs.last())
    }
}

/// The descriptors of one sequence: those of its canvases, in order.
pub open spec fn sequence_images(s: SequenceV) -> Seq<ImageDescriptor> {
    images_of_canvases(s.canvases)
}

/// The descriptors of a list of sequences, sequence by sequence, in order.
pub open spec fn images_of_sequences(ss: Seq<SequenceV>) -> Seq<ImageDescriptor>
    decreases ss.len(),
{
    if ss.len() == 0 {
        Seq::empty()
    } else {
        images_of_sequences(ss.drop_last()) + sequence_images(ss.last())
    }
}

/// The flattened image list of a manifest: depth first over sequences, then
/// canvases, then images, preserving manifest order throughout.
pub open spec fn manifest_images(m: ManifestV) -> Seq<ImageDescriptor> {
    images_of_sequences(m.sequences)
}

impl Manifest {
    /// Flattens the manifest into one fresh viewer image per manifest image,
    /// in depth-first manifest order.
    pub fn get_viewer_images(&self) -> (r: Vec<ViewerImage>)
        ensures
            fresh_for_all(r@, manifest_images(self@)),
    {
        let ghost ssv = sequences_view(self.sequences@);
        let mut out: Vec<ViewerImage> = Vec::new();
        let mut si: usize = 0;
        let sn = self.sequences.len();
        while si < sn
            invariant
                sn == self.sequences@.len(),
                si <= sn,
                ssv == sequences_view(self.sequences@),
                fresh_for_all(out@, images_of_sequences(ssv.take(si as int))),
            decreases sn - si,
        {
            let sequence = &self.sequences[si];
            let ghost csv = sequence@.canvases;
            let ghost base = images_of_sequences(ssv.take(si as int));
            let mut ci: usize = 0;
            let cn = sequence.canvases.len();
            while ci < cn
                invariant
                    cn == sequence.canvases@.len(),
                    ci <= cn,
                    csv == sequence@.canvases,
                    base == images_of_sequences(ssv.take(si as int)),
                    fresh_for_all(out@, base + images_of_canvases(csv.take(ci as int))),
                decreases cn - ci,
            {
                let canvas = &sequence.canvases[ci];
                let ghost cv = canvas@;
                let ghost cbase = base + images_of_canvases(csv.take(ci as int));
                let mut ii: usize = 0;
                let inn = canvas.images.len();
                while ii < inn
                    invariant
                        inn == canvas.images@.len(),
                        ii <= inn,
                        cv == canvas@,
                        cbase == base + images_of_canvases(csv.take(ci as int)),
                        fresh_for_all(out@, cbase + canvas_images(cv).take(ii as int)),
                    decreases inn - ii,
                {
                    let image = &canvas.images[ii];
                    let thumbnail: Option<&str> = match &canvas.thumbnail {
                        Some(t) => Some(t.id.as_str()),
                        None => None,
                    };
                    let im = ViewerImage::new(image.src().as_str(), canvas.label.as_str(), thumbnail);
                    proof {
                        let d = canvas_images(cv)[ii as int];
                        assert(im.is_fresh_for(d));
                        lemma_fresh_push(out@, cbase + canvas_images(cv).take(ii as int), im, d);
                        assert((cbase + canvas_images(cv).take(ii as int)).push(d) =~= cbase
                            + canvas_images(cv).take(ii + 1));
                    }
                    out.push(im);
                    ii += 1;
                }
                proof {
                    assert(canvas_images(cv).take(inn as int) =~= canvas_images(cv));
                    assert(csv.take(ci + 1).drop_last() =~= csv.take(ci as int));
                    assert(cbase + canvas_images(cv) =~= base + images_of_canvases(
                        csv.take(ci + 1),
                    ));
                }
                ci += 1;
            }
            proof {
                assert(csv.take(cn as int) =~= csv);
                assert(ssv.take(si + 1).drop_last() =~= ssv.take(si as int));
                assert(base + images_of_canvases(csv) =~= images_of_sequences(ssv.take(si + 1)));
            }
            si += 1;
        }
        proof {
            assert(ssv.take(sn as int) =~= ssv);
        }
        out
    }
}

// ---------------------------------------------------------------------------
// What extraction from a JSON document yields, as spec functions.
// ---------------------------------------------------------------------------

/// The `@value` string of one localized label entry, if the entry has one.
pub open spec fn content_value_of(v: JsonV) -> Option<Seq<char>> {
    match v.get("@value"@) {
        Some(JsonV::Str(s)) => Some(s),
        _ => None,
    }
}

/// The `@value` strings of a list of label entries; nothing if any entry
/// lacks one.
pub open spec fn label_entries_of(items: Seq<JsonV>) -> Option<Seq<Seq<char>>>
    decreases items.len(),
{
    if items.len() == 0 {
        Some(Seq::empty())
    } else {
        match (label_entries_of(items.drop_last()), content_value_of(items.last())) {
            (Some(init), Some(s)) => Some(init.push(s)),
            _ => None,
        }
    }
}

/// One malformed entry spoils the whole list.
proof fn lemma_label_entries_fail(items: Seq<JsonV>, i: int)
    requires
        0 <= i < items.len(),
        content_value_of(items[i]) is None,
    ensures
        label_entries_of(items) is None,
    decreases items.len(),
{
    if i < items.len() - 1 {
        lemma_label_entries_fail(items.drop_last(), i);
    }
}

/// The label a JSON value describes: a string as it stands, an array through
/// its `@value` entries, anything else nothing.
pub open spec fn label_of(v: JsonV) -> Option<LabelV> {
    match v {
        JsonV::Str(s) => Some(LabelV::Text(s)),
        JsonV::Arr(items) => match label_entries_of(items) {
            Some(es) => Some(LabelV::Entries(es)),
            None => None,
        },
        _ => None,
    }
}

/// The resource URI of one image value: its `resource.@id` string.
pub open spec fn image_src_of(v: JsonV) -> Option<Seq<char>> {
    match v.get("resource"@) {
        Some(r) => match r.get("@id"@) {
            Some(JsonV::Str(s)) => Some(s),
            _ => None,
        },
        None => None,
    }
}

/// The resource URIs of a list of image values; nothing if any is malformed.
pub open spec fn images_of(items: Seq<JsonV>) -> Option<Seq<Seq<char>>>
    decreases items.len(),
{
    if items.len() == 0 {
        Some(Seq::empty())
    } else {
        match (images_of(items.drop_last()), image_src_of(items.last())) {
            (Some(init), Some(s)) => Some(init.push(s)),
            _ => None,
        }
    }
}

/// One malformed image spoils the whole list.
proof fn lemma_images_fail(items: Seq<JsonV>, i: int)
    requires
        0 <= i < items.len(),
        image_src_of(items[i]) is None,
    ensures
        images_of(items) is None,
    decreases items.len(),
{
    if i < items.len() - 1 {
        lemma_images_fail(items.drop_last(), i);
    }
}

/// A canvas's optional thumbnail: absent when the canvas has none, its
/// `@id` string when present and well-formed, and nothing (malformed) when
/// present in any other shape.
pub open spec fn thumbnail_of(fields: Seq<(Seq<char>, JsonV)>) -> Option<Option<Seq<char>>> {
    match obj_get(fields, "thumbnail"@) {
        None => Some(None),
        Some(t) => match t.get("@id"@) {
            Some(JsonV::Str(s)) => Some(Some(s)),
            _ => None,
        },
    }
}

/// The canvas a JSON value describes: its string label, its optional
/// thumbnail and its image URIs; nothing if any part is malformed.
pub open spec fn canvas_of(v: JsonV) -> Option<CanvasV> {
    match v {
        JsonV::Obj(fields) => match (obj_get(fields, "label"@), thumbnail_of(fields), obj_get(
            fields,
            "images"@,
        )) {
            (Some(JsonV::Str(label)), Some(thumbnail), Some(JsonV::Arr(items))) => match images_of(
                items,
            ) {
                Some(images) => Some(CanvasV { label, thumbnail, images }),
                None => None,
            },
            _ => None,
        },
        _ => None,
    }
}

/// The canvases of a list of canvas values; nothing if any is malformed.
pub open spec fn canvases_of(items: Seq<JsonV>) -> Option<Seq<CanvasV>>
    decreases items.len(),
{
    if items.len() == 0 {
        Some(Seq::empty())
    } else {
        match (canvases_of(items.drop_last()), canvas_of(items.last())) {
            (Some(init), Some(c)) => Some(init.push(c)),
            _ => None,
        }
    }
}

/// One malformed canvas spoils the whole list.
proof fn lemma_canvases_fail(items: Seq<JsonV>, i: int)
    requires
        0 <= i < items.len(),
        canvas_of(items[i]) is None,
    ensures
        canvases_of(items) is None,
    decreases items.len(),
{
    if i < items.len() - 1 {
        lemma_canvases_fail(items.drop_last(), i);
    }
}

/// The sequence a JSON value describes: its canvases, out of its `canvases`
/// array; nothing if malformed.
pub open spec fn sequence_of(v: JsonV) -> Option<SequenceV> {
    match v {
        JsonV::Obj(fields) => match obj_get(fields, "canvases"@) {
            Some(JsonV::Arr(items)) => match canvases_of(items) {
                Some(canvases) => Some(SequenceV { canvases }),
                None => None,
            },
            _ => None,
        },
        _ => None,
    }
}

/// The sequences of a list of sequence values; nothing if any is malformed.
pub open spec fn sequences_of(items: Seq<JsonV>) -> Option<Seq<SequenceV>>
    decreases items.len(),
{
    if items.len() == 0 {
        Some(Seq::empty())
    } else {
        match (sequences_of(items.drop_last()), sequence_of(items.last())) {
            (Some(init), Some(s)) => Some(init.push(s)),
            _ => None,
        }
    }
}

/// One malformed sequence spoils the whole list.
proof fn lemma_sequences_fail(items: Seq<JsonV>, i: int)
    requires
        0 <= i < items.len(),
        sequence_of(items[i]) is None,
    ensures
        sequences_of(items) is None,
    decreases items.len(),
{
    if i < items.len() - 1 {
        lemma_sequences_fail(items.drop_last(), i);
    }
}

/// The manifest a JSON document describes, or exactly why it is rejected.
pub open spec fn manifest_of(v: JsonV) -> Result<ManifestV, ParseError> {
    match v {
        JsonV::Obj(fields) => match obj_get(fields, "label"@) {
            None => Err(ParseError::MissingLabel),
            Some(lv) => match label_of(lv) {
                None => Err(ParseError::BadLabel),
                Some(label) => match obj_get(fields, "sequences"@) {
                    None => Err(ParseError::MissingSequences),
                    Some(JsonV::Arr(items)) => match sequences_of(items) {
                        Some(sequences) => Ok(ManifestV { label, sequences }),
                        None => Err(ParseError::BadSequence),
                    },
                    Some(_) => Err(ParseError::BadSequences),
                },
            },
        },
        _ => Err(ParseError::NotAnObject),
    }
}

/// The manifest a string of JSON text describes, or exactly why it is
/// rejected.
pub open spec fn manifest_of_text(s: Seq<char>) -> Result<ManifestV, ParseError> {
    match json_of(s) {
        Some(v) => manifest_of(v),
        None => Err(ParseError::InvalidJson),
    }
}

// ---------------------------------------------------------------------------
// Verified extraction.
// ---------------------------------------------------------------------------

fn parse_content_value(v: &JsonValue) -> (r: Option<String>)
    ensures
        match r {
            Some(s) => content_value_of(v@) == Some(s@),
            None => content_value_of(v@) is None,
        },
{
    match v.get("@value") {
        Some(inner) => match inner.as_str_value() {
            Some(s) => Some(s.clone()),
            None => None,
        },
        None => None,
    }
}

fn parse_label_entries(items: &Vec<JsonValue>) -> (r: Option<Vec<EuropeanaContent>>)
    ensures
        match r {
            Some(es) => label_entries_of(json_views(items@)) == Some(entries_view(es@)),
            None => label_entries_of(json_views(items@)) is None,
        },
{
    let ghost jvs = json_views(items@);
    proof {
        lemma_json_views(items@);
    }
    let n = items.len();
    let mut out: Vec<EuropeanaContent> = Vec::new();
    let mut i: usize = 0;
    while i < n
        invariant
            n == items.len(),
            i <= n,
            jvs == json_views(items@),
            jvs.len() == n,
            forall|j: int| 0 <= j < n ==> jvs[j] == json_view(items@[j]),
            label_entries_of(jvs.take(i as int)) == Some(entries_view(out@)),
        decreases n - i,
    {
        match parse_content_value(&items[i]) {
            Some(s) => {
                let ghost prev = out@;
                out.push(EuropeanaContent { value: s });
                proof {
                    assert(jvs.take(i + 1).drop_last() =~= jvs.take(i as int));
                    assert(entries_view(out@) =~= entries_view(prev).push(out@.last()@));
                }
            },
            None => {
                proof {
                    lemma_label_entries_fail(jvs, i as int);
                }
                return None;
            },
        }
        i += 1;
    }
    proof {
        assert(jvs.take(n as int) =~= jvs);
    }
    Some(out)
}

fn parse_label(v: &JsonValue) -> (r: Option<Label>)
    ensures
        match r {
            Some(l) => label_of(v@) == Some(l@),
            None => label_of(v@) is None,
        },
{
    match v {
        JsonValue::Str(s) => Some(Label::Text(s.clone())),
        JsonValue::Arr(items) => {
            proof {
                lemma_json_views(items@);
            }
            match parse_label_entries(items) {
                Some(es) => Some(Label::Entries(es)),
                None => None,
            }
        },
        _ => None,
    }
}

fn parse_image(v: &JsonValue) -> (r: Option<Image>)
    ensures
        match r {
            Some(im) => image_src_of(v@) == Some(im@),
            None => image_src_of(v@) is None,
        },
{
    match v.get("resource") {
        Some(resource) => match resource.get("@id") {
            Some(id) => match id.as_str_value() {
                Some(s) => Some(Image { resource_id: s.clone() }),
                None => None,
            },
            None => None,
        },
        None => None,
    }
}

fn parse_images(items: &Vec<JsonValue>) -> (r: Option<Vec<Image>>)
    ensures
        match r {
            Some(ims) => images_of(json_views(items@)) == Some(images_view(ims@)),
            None => images_of(json_views(items@)) is None,
        },
{
    let ghost jvs = json_views(items@);
    proof {
        lemma_json_views(items@);
    }
    let n = items.len();
    let mut out: Vec<Image> = Vec::new();
    let mut i: usize = 0;
    while i < n
        invariant
            n == items.len(),
            i <= n,
            jvs == json_views(items@),
            jvs.len() == n,
            forall|j: int| 0 <= j < n ==> jvs[j] == json_view(items@[j]),
            images_of(jvs.take(i as int)) == Some(images_view(out@)),
        decreases n - i,
    {
        match parse_image(&items[i]) {
            Some(im) => {
                let ghost prev = out@;
                out.push(im);
                proof {
                    assert(jvs.take(i + 1).drop_last() =~= jvs.take(i as int));
                    assert(images_view(out@) =~= images_view(prev).push(out@.last()@));
                }
            },
            None => {
                proof {
                    lemma_images_fail(jvs, i as int);
                }
                return None;
            },
        }
        i += 1;
    }
    proof {
        assert(jvs.take(n as int) =~= jvs);
    }
    Some(out)
}

fn parse_canvas(v: &JsonValue) -> (r: Option<Canvas>)
    ensures
        match r {
            Some(c) => canvas_of(v@) == Some(c@),
            None => canvas_of(v@) is None,
        },
{
    let label: String = match v.get("label") {
        Some(l) => match l.as_str_value() {
            Some(s) => s.clone(),
            None => {
                return None;
            },
        },
        None => {
            return None;
        },
    };
    let thumbnail: Option<Thumbnail> = match v.get("thumbnail") {
        None => None,
        Some(t) => match t.get("@id") {
            Some(id) => match id.as_str_value() {
                Some(s) => Some(Thumbnail { id: s.clone() }),
                None => {
                    return None;
                },
            },
            None => {
                return None;
            },
        },
    };
    let images: Vec<Image> = match v.get("images") {
        Some(imgs) => match imgs {
            JsonValue::Arr(items) => match parse_images(items) {
                Some(ims) => ims,
                None => {
                    return None;
                },
            },
            _ => {
                return None;
            },
        },
        None => {
            return None;
        },
    };
    Some(Canvas { label, thumbnail, images })
}

fn parse_canvases(items: &Vec<JsonValue>) -> (r: Option<Vec<Canvas>>)
    ensures
        match r {
            Some(cs) => canvases_of(json_views(items@)) == Some(canvases_view(cs@)),
            None => canvases_of(json_views(items@)) is None,
        },
{
    let ghost jvs = json_views(items@);
    proof {
        lemma_json_views(items@);
    }
    let n = items.len();
    let mut out: Vec<Canvas> = Vec::new();
    let mut i: usize = 0;
    while i < n
        invariant
            n == items.len(),
            i <= n,
            jvs == json_views(items@),
            jvs.len() == n,
            forall|j: int| 0 <= j < n ==> jvs[j] == json_view(items@[j]),
            canvases_of(jvs.take(i as int)) == Some(canvases_view(out@)),
        decreases n - i,
    {
        match parse_canvas(&items[i]) {
            Some(c) => {
                let ghost prev = out@;
                out.push(c);
                proof {
                    assert(jvs.take(i + 1).drop_last() =~= jvs.take(i as int));
                    assert(canvases_view(out@) =~= canvases_view(prev).push(out@.last()@));
                }
            },
            None => {
                proof {
                    lemma_canvases_fail(jvs, i as int);
                }
                return None;
            },
        }
        i += 1;
    }
    proof {
        assert(jvs.take(n as int) =~= jvs);
    }
    Some(out)
}

fn parse_sequence(v: &JsonValue) -> (r: Option<Sequence>)
    ensures
        match r {
            Some(s) => sequence_of(v@) == Some(s@),
            None => sequence_of(v@) is None,
        },
{
    match v.get("canvases") {
        Some(cs) => match cs {
            JsonValue::Arr(items) => match parse_canvases(items) {
                Some(canvases) => Some(Sequence { canvases }),
                None => None,
            },
            _ => None,
        },
        None => None,
    }
}

fn parse_sequences(items: &Vec<JsonValue>) -> (r: Option<Vec<Sequence>>)
    ensures
        match r {
            Some(ss) => sequences_of(json_views(items@)) == Some(sequences_view(ss@)),
            None => sequences_of(json_views(items@)) is None,
        },
{
    let ghost jvs = json_views(items@);
    proof {
        lemma_json_views(items@);
    }
    let n = items.len();
    let mut out: Vec<Sequence> = Vec::new();
    let mut i: usize = 0;
    while i < n
        invariant
            n == items.len(),
            i <= n,
            jvs == json_views(items@),
            jvs.len() == n,
            forall|j: int| 0 <= j < n ==> jvs[j] == json_view(items@[j]),
            sequences_of(jvs.take(i as int)) == Some(sequences_view(out@)),
        decreases n - i,
    {
        match parse_sequence(&items[i]) {
            Some(s) => {
                let ghost prev = out@;
                out.push(s);
                proof {
                    assert(jvs.take(i + 1).drop_last() =~= jvs.take(i as int));
                    assert(sequences_view(out@) =~= sequences_view(prev).push(out@.last()@));
                }
            },
            None => {
                proof {
                    lemma_sequences_fail(jvs, i as int);
                }
                return None;
            },
        }
        i += 1;
    }
    proof {
        assert(jvs.take(n as int) =~= jvs);
    }
    Some(out)
}

impl Manifest {
    /// Builds a manifest from a parsed JSON document, accepting exactly the
    /// documents [`manifest_of`] accepts and failing with exactly the error
    /// it names.
    pub fn from_json(v: &JsonValue) -> (r: Result<Manifest, ParseError>)
        ensures
            match r {
                Ok(m) => manifest_of(v@) == Ok::<ManifestV, ParseError>(m@),
                Err(e) => manifest_of(v@) == Err::<ManifestV, ParseError>(e),
            },
    {
        match v {
            JsonValue::Obj(_) => (),
            _ => {
                return Err(ParseError::NotAnObject);
            },
        }
        let label: Label = match v.get("label") {
            Some(lv) => match parse_label(lv) {
                Some(l) => l,
                None => {
                    return Err(ParseError::BadLabel);
                },
            },
            None => {
                return Err(ParseError::MissingLabel);
            },
        };
        let sequences: Vec<Sequence> = match v.get("sequences") {
            Some(sv) => match sv {
                JsonValue::Arr(items) => match parse_sequences(items) {
                    Some(ss) => ss,
                    None => {
                        return Err(ParseError::BadSequence);
                    },
                },
                _ => {
                    return Err(ParseError::BadSequences);
                },
            },
            None => {
                return Err(ParseError::MissingSequences);
            },
        };
        Ok(Manifest { label, sequences })
    }

    /// Parses manifest JSON text, accepting exactly the texts
    /// [`manifest_of_text`] accepts and failing with exactly the error it
    /// names. No partial manifest comes out of a rejected text.
    pub fn from_str(s: &str) -> (r: Result<Manifest, ParseError>)
        ensures
            match r {
                Ok(m) => manifest_of_text(s@) == Ok::<ManifestV, ParseError>(m@),
                Err(e) => manifest_of_text(s@) == Err::<ManifestV, ParseError>(e),
            },
    {
        match parse_json(s) {
            Some(v) => Manifest::from_json(&v),
            None => Err(ParseError::InvalidJson),
        }
    }
}

} // verus!
