//! Viewer engine: the flattened image collection, the current index, the
//! per-image lazy load state and the drag-pan offsets.

use vstd::prelude::*;

use crate::iiif_manifest::{
    manifest_images, manifest_of_text, ImageDescriptor, Label, Manifest,
};

verus! {

/// A pan position in screen pixels, relative to the image's resting place.
#[derive(Clone, Copy, Debug, PartialEq, Eq, Structural)]
pub struct Position {
    pub x: i64,
    pub y: i64,
}

/// Which side of the viewing surface a click landed on: the left quarter,
/// the right quarter, or the middle half.
#[derive(Clone, Copy, Debug, PartialEq, Eq, Structural)]
pub enum Direction {
    Left,
    Right,
    Center,
}

impl Direction {
    /// Classifies a click at horizontal offset `x` inside a surface that is
    /// `offset_width` pixels wide.
    pub fn from(offset_width: i32, x: i32) -> (d: Direction)
        ensures
            d == Direction::class(offset_width as int, x as int),
    {
        let w = offset_width as i64;
        let xw = x as i64;
        if xw < w / 4 {
            Direction::Left
        } else if xw > w * 3 / 4 {
            Direction::Right
        } else {
            Direction::Center
        }
    }

    /// The side a click at offset `x` falls on, in a surface `w` pixels wide:
    /// strictly inside the first quarter is left, strictly past three
    /// quarters is right, anything else is neither.
    pub open spec fn class(w: int, x: int) -> Direction {
        if x < tdiv(w, 4) {
            Direction::Left
        } else if x > tdiv(w * 3, 4) {
            Direction::Right
        } else {
            Direction::Center
        }
    }
}

/// Division rounding toward zero, as machine division of signed integers
/// does; `/` on `int` rounds toward negative infinity instead.
pub open spec fn tdiv(a: int, b: int) -> int
    recommends
        b > 0,
{
    if a >= 0 {
        a / b
    } else {
        -((-a) / b)
    }
}

/// `v` brought into `i64`'s range: values beyond an end stick to that end.
pub open spec fn clamp_i64(v: int) -> i64 {
    if v < i64::MIN {
        i64::MIN
    } else if v > i64::MAX {
        i64::MAX
    } else {
        v as i64
    }
}

/// The position a drag puts an image at: the baseline from the last committed
/// drag, shifted by how far the pointer has travelled from its anchor.
pub open spec fn pan_position(baseline: i64, anchor: int, pointer: int) -> i64 {
    clamp_i64(baseline + pointer - anchor)
}

/// Baseline plus pointer travel, computed without overflow: the exact sum
/// where it fits in `i64`, the nearest end of the range where it does not.
pub(crate) fn shifted(baseline: i64, anchor: i32, pointer: i32) -> (r: i64)
    ensures
        r == pan_position(baseline, anchor as int, pointer as int),
{
    let delta: i64 = pointer as i64 - anchor as i64;
    if delta >= 0 {
        if baseline <= i64::MAX - delta {
            baseline + delta
        } else {
            i64::MAX
        }
    } else {
        if baseline >= i64::MIN - delta {
            baseline + delta
        } else {
            i64::MIN
        }
    }
}

/// A drag that ends where it started leaves the image at its baseline, and
/// while the shifted position stays within `i64`'s range a drag moves the
/// image by exactly the pointer's travel. In particular a drag sequence that
/// commits its position and then moves by zero returns exactly to the
/// committed baseline.
pub proof fn lemma_pan_round_trip(baseline: i64, anchor: int, pointer: int)
    ensures
        pan_position(baseline, anchor, anchor) == baseline,
        i64::MIN <= baseline + pointer - anchor <= i64::MAX ==> pan_position(
            baseline,
            anchor,
            pointer,
        ) == baseline + pointer - anchor,
{
}

// ---------------------------------------------------------------------------
// Images and their lazy load state.
// ---------------------------------------------------------------------------

/// Where an image stands in its life cycle. The state only ever moves
/// forward: not requested, then loading, then loaded.
pub enum LoadState {
    NotRequested,
    Loading,
    Loaded,
}

/// One image of the flattened list: its immutable descriptor plus runtime
/// state. Whether a requested asset has finished arriving is not stored
/// here: it is re-derived from the asset's completion signal on every query,
/// so a stale cached answer cannot exist.
#[derive(Debug)]
pub struct ViewerImage {
    /// Source URI of the full image.
    pub src: String,
    /// Display label, taken from the canvas.
    pub label: String,
    /// Thumbnail URI, when the canvas has one.
    pub thumbnail: Option<String>,
    /// Whether a load of the asset has been issued.
    pub requested: bool,
    /// Current pan position.
    pub position_x: i64,
    pub position_y: i64,
    /// Baseline position committed by the last finished drag.
    pub original_x: i64,
    pub original_y: i64,
    /// Ratio of the image's intrinsic width to its rendered width.
    pub zoom: u32,
}

impl ViewerImage {
    /// The load state this image is in, given the completion signal polled
    /// from its asset.
    pub open spec fn state(self, asset_complete: bool) -> LoadState {
        if !self.requested {
            LoadState::NotRequested
        } else if asset_complete {
            LoadState::Loaded
        } else {
            LoadState::Loading
        }
    }

    /// Whether this image is exactly the descriptor `d` in its initial
    /// runtime state: nothing requested, no pan offset, unit zoom.
    pub open spec fn is_fresh_for(self, d: ImageDescriptor) -> bool {
        &&& self.src@ == d.src
        &&& self.label@ == d.label
        &&& match (self.thumbnail, d.thumbnail) {
            (Some(t), Some(u)) => t@ == u,
            (None, None) => true,
            _ => false,
        }
        &&& !self.requested
        &&& self.position_x == 0
        &&& self.position_y == 0
        &&& self.original_x == 0
        &&& self.original_y == 0
        &&& self.zoom == 1
    }

    /// A fresh image for one descriptor (see [`Self::is_fresh_for`]).
    pub fn new(src: &str, label: &str, thumbnail: Option<&str>) -> (r: ViewerImage)
        ensures
            r.is_fresh_for(
                ImageDescriptor {
                    src: src@,
                    label: label@,
                    thumbnail: match thumbnail {
                        Some(t) => Some(t@),
                        None => None,
                    },
                },
            ),
    {
        ViewerImage {
            src: src.to_owned(),
            label: label.to_owned(),
            thumbnail: match thumbnail {
                Some(t) => Some(t.to_owned()),
                None => None,
            },
            requested: false,
            position_x: 0,
            position_y: 0,
            original_x: 0,
            original_y: 0,
            zoom: 1,
        }
    }

    /// Whether a load has been issued for this image.
    pub fn loading(&self) -> (r: bool)
        ensures
            r == self.requested,
    {
        self.requested
    }

    /// Whether this image is fully loaded: a load was issued and the asset
    /// reports itself complete.
    pub fn loaded(&self, asset_complete: bool) -> (r: bool)
        ensures
            r == (self.state(asset_complete) is Loaded),
    {
        self.requested && asset_complete
    }

    /// Marks the load as issued. Creating the asset and pointing it at
    /// [`ViewerImage::src`] is the caller's job.
    pub fn load(&mut self)
        ensures
            *final(self) == (ViewerImage { requested: true, ..*old(self) }),
    {
        self.requested = true;
    }
}

/// Whether `ims` is exactly the descriptor list `ds`, image by image, with
/// every image in its initial runtime state.
pub open spec fn fresh_for_all(ims: Seq<ViewerImage>, ds: Seq<ImageDescriptor>) -> bool {
    ims.len() == ds.len() && forall|k: int|
        0 <= k < ds.len() ==> ims[k].is_fresh_for(#[trigger] ds[k])
}

/// Appending one fresh image for one more descriptor keeps the lists in
/// step.
pub proof fn lemma_fresh_push(
    ims: Seq<ViewerImage>,
    ds: Seq<ImageDescriptor>,
    im: ViewerImage,
    d: ImageDescriptor,
)
    requires
        fresh_for_all(ims, ds),
        im.is_fresh_for(d),
    ensures
        fresh_for_all(ims.push(im), ds.push(d)),
{
    assert forall|k: int| 0 <= k < ds.push(d).len() implies ims.push(im)[k].is_fresh_for(
        #[trigger] ds.push(d)[k],
    ) by {
        if k < ds.len() {
            assert(ims.push(im)[k] == ims[k]);
            assert(ds.push(d)[k] == ds[k]);
        }
    }
}

// ---------------------------------------------------------------------------
// The engine.
// ---------------------------------------------------------------------------

/// The viewer engine: the flattened image collection of the current
/// manifest, the current index, and the drag anchor. All state is owned by
/// one engine instance.
pub struct Viewer {
    /// The flattened image list, in manifest order.
    pub images: Vec<ViewerImage>,
    /// The manifest the list came from, if one was accepted.
    pub manifest: Option<Manifest>,
    /// Index of the image currently shown.
    pub index: usize,
    /// Pointer position where the active drag started, if one is active.
    pub anchor: Option<(i32, i32)>,
}

impl Viewer {
    /// An engine with no manifest: no images, index zero, no active drag.
    pub fn new() -> (r: Viewer)
        ensures
            r.images@.len() == 0,
            r.manifest is None,
            r.index == 0,
            r.anchor is None,
    {
        Viewer { images: Vec::new(), manifest: None, index: 0, anchor: None }
    }

    /// Replaces the whole image collection from manifest JSON text and
    /// resets the current index, exactly when the text is accepted; a
    /// rejected text leaves the engine untouched, previous collection and
    /// index included.
    pub fn set_manifest(&mut self, manifest: String) -> (ok: bool)
        ensures
            ok == (manifest_of_text(manifest@) is Ok),
            !ok ==> *final(self) == *old(self),
            ok ==> ({
                let m = manifest_of_text(manifest@)->Ok_0;
                &&& match final(self).manifest {
                    Some(pm) => pm@ == m,
                    None => false,
                }
                &&& final(self).images@.len() == manifest_images(m).len()
                &&& forall|k: int|
                    0 <= k < manifest_images(m).len() ==> final(self).images@[k].is_fresh_for(
                        #[trigger] manifest_images(m)[k],
                    )
                &&& final(self).index == 0
                &&& final(self).anchor == old(self).anchor
            }),
    {
        match Manifest::from_str(manifest.as_str()) {
            Ok(m) => {
                let images = m.get_viewer_images();
                self.images = images;
                self.manifest = Some(m);
                self.index = 0;
                true
            },
            Err(_) => false,
        }
    }

    /// Shows the image at `index`, given the completion signal polled from
    /// that image's asset. A not-yet-requested image moves to loading and
    /// the call reports "not ready" without touching the current index; a
    /// loading image is left alone; a loaded image becomes the current one
    /// and the call reports "ready". An out-of-range index is a no-op
    /// reporting "not ready". Drawing the ready image is the caller's job.
    pub fn show(&mut self, index: usize, asset_complete: bool) -> (ready: bool)
        ensures
            final(self).manifest == old(self).manifest,
            final(self).anchor == old(self).anchor,
            ready == (index < old(self).images@.len()
                && old(self).images@[index as int].state(asset_complete) is Loaded),
            final(self).index == if ready {
                index
            } else {
                old(self).index
            },
            index >= old(self).images@.len() ==> *final(self) == *old(self),
            index < old(self).images@.len() ==> ({
                let im = old(self).images@[index as int];
                match im.state(asset_complete) {
                    LoadState::NotRequested => final(self).images@ == old(self).images@.update(
                        index as int,
                        (ViewerImage { requested: true, ..im }),
                    ),
                    _ => final(self).images@ == old(self).images@,
                }
            }),
    {
        if index < self.images.len() {
            if !self.images[index].requested {
                self.images[index].requested = true;
                return false;
            }
            if asset_complete {
                self.index = index;
                return true;
            }
            false
        } else {
            false
        }
    }

    /// Shows the image after the current one, as [`Viewer::show`] does.
    pub fn next(&mut self, asset_complete: bool) -> (ready: bool)
        ensures
            final(self).manifest == old(self).manifest,
            final(self).anchor == old(self).anchor,
            ready == (old(self).index + 1 < old(self).images@.len() && old(self).images@[old(
                self,
            ).index + 1].state(asset_complete) is Loaded),
            final(self).index == if ready {
                old(self).index + 1
            } else {
                old(self).index as int
            },
            old(self).index + 1 >= old(self).images@.len() ==> *final(self) == *old(self),
            old(self).index + 1 < old(self).images@.len() ==> ({
                let im = old(self).images@[old(self).index + 1];
                match im.state(asset_complete) {
                    LoadState::NotRequested => final(self).images@ == old(self).images@.update(
                        old(self).index + 1,
                        (ViewerImage { requested: true, ..im }),
                    ),
                    _ => final(self).images@ == old(self).images@,
                }
            }),
    {
        let n = self.images.len();
        if self.index < n {
            self.show(self.index + 1, asset_complete)
        } else {
            // the image after the current one does not exist, so showing it
            // would be a no-op anyway
            false
        }
    }

    /// Shows the image before the current one. At index zero this is a
    /// defined no-op: the index stays zero and nothing is reported ready.
    pub fn prev(&mut self, asset_complete: bool) -> (ready: bool)
        ensures
            final(self).manifest == old(self).manifest,
            final(self).anchor == old(self).anchor,
            old(self).index == 0 ==> *final(self) == *old(self) && !ready,
            old(self).index > 0 ==> ({
                let target = old(self).index - 1;
                &&& ready == (target < old(self).images@.len() && old(self).images@[target].state(
                    asset_complete,
                ) is Loaded)
                &&& final(self).index == if ready {
                    target
                } else {
                    old(self).index as int
                }
                &&& target >= old(self).images@.len() ==> *final(self) == *old(self)
                &&& target < old(self).images@.len() ==> ({
                    let im = old(self).images@[target];
                    match im.state(asset_complete) {
                        LoadState::NotRequested => final(self).images@ == old(
                            self,
                        ).images@.update(target, (ViewerImage { requested: true, ..im })),
                        _ => final(self).images@ == old(self).images@,
                    }
                })
            }),
    {
        if self.index == 0 {
            false
        } else {
            let target = self.index - 1;
            self.show(target, asset_complete)
        }
    }

    /// The index of the first image whose source URI equals `src`; when no
    /// image matches, the current index, unchanged, as a defined fallback.
    pub fn get_index_by_src(&self, src: String) -> (r: usize)
        ensures
            (exists|i: int|
                0 <= i < self.images@.len() && self.images@[i].src@ == src@) ==> (0 <= r
                < self.images@.len() && self.images@[r as int].src@ == src@ && forall|j: int|
                0 <= j < r ==> self.images@[j].src@ != src@),
            !(exists|i: int| 0 <= i < self.images@.len() && self.images@[i].src@ == src@) ==> r
                == self.index,
    {
        let n = self.images.len();
        let mut i: usize = 0;
        while i < n
            invariant
                n == self.images@.len(),
                i <= n,
                forall|j: int| 0 <= j < i ==> self.images@[j].src@ != src@,
            decreases n - i,
        {
            if self.images[i].src.eq(&src) {
                return i;
            }
            i += 1;
        }
        self.index
    }

    /// How many images the flattened list holds.
    pub fn size(&self) -> (r: usize)
        ensures
            r == self.images@.len(),
    {
        self.images.len()
    }

    /// Issues a load for the image at `index` unless it is already loaded;
    /// out of range, a no-op.
    pub fn load(&mut self, index: usize, asset_complete: bool)
        ensures
            final(self).manifest == old(self).manifest,
            final(self).anchor == old(self).anchor,
            final(self).index == old(self).index,
            index >= old(self).images@.len() ==> *final(self) == *old(self),
            index < old(self).images@.len() ==> ({
                let im = old(self).images@[index as int];
                if im.state(asset_complete) is Loaded {
                    final(self).images@ == old(self).images@
                } else {
                    final(self).images@ == old(self).images@.update(
                        index as int,
                        (ViewerImage { requested: true, ..im }),
                    )
                }
            }),
    {
        if index < self.images.len() {
            if !(self.images[index].requested && asset_complete) {
                self.images[index].requested = true;
                proof {
                    if old(self).images@[index as int].requested {
                        assert(self.images@ =~= old(self).images@.update(
                            index as int,
                            (ViewerImage { requested: true, ..old(self).images@[index as int] }),
                        ));
                    }
                }
            }
        }
    }

    /// Whether a load has been issued for the image at `index`; out of
    /// range, `true`, as the original's defined fallback.
    pub fn is_loading(&self, index: usize) -> (r: bool)
        ensures
            r == if index < self.images@.len() {
                self.images@[index as int].requested
            } else {
                true
            },
    {
        if index < self.images.len() {
            self.images[index].requested
        } else {
            true
        }
    }

    /// Whether the image at `index` is loaded, given its asset's completion
    /// signal; out of range, `true`, as the original's defined fallback.
    pub fn is_loaded(&self, index: usize, asset_complete: bool) -> (r: bool)
        ensures
            r == if index < self.images@.len() {
                self.images@[index as int].state(asset_complete) is Loaded
            } else {
                true
            },
    {
        if index < self.images.len() {
            self.images[index].loaded(asset_complete)
        } else {
            true
        }
    }

    /// The manifest's display label, or `"None"` when no manifest is loaded
    /// or a list-shaped label is empty.
    pub fn label(&self) -> (r: String)
        ensures
            r@ == match self.manifest {
                Some(m) => m@.label.display(),
                None => "None"@,
            },
    {
        match &self.manifest {
            Some(m) => match &m.label {
                Label::Text(s) => s.clone(),
                Label::Entries(es) => {
                    if es.len() > 0 {
                        es[0].value.clone()
                    } else {
                        "None".to_owned()
                    }
                },
            },
            None => "None".to_owned(),
        }
    }

    /// The current image's label, or the empty string when the index is out
    /// of range.
    pub fn image_label(&self) -> (r: String)
        ensures
            r@ == if self.index < self.images@.len() {
                self.images@[self.index as int].label@
            } else {
                Seq::<char>::empty()
            },
    {
        if self.index < self.images.len() {
            self.images[self.index].label.clone()
        } else {
            String::new()
        }
    }

    /// Starts a drag at the given pointer position. A second start before
    /// the drag ends just moves the anchor: at most one drag is active.
    pub fn move_mousedown(&mut self, x: i32, y: i32)
        ensures
            *final(self) == (Viewer { anchor: Some((x, y)), ..*old(self) }),
    {
        self.anchor = Some((x, y));
    }

    /// Moves the current image while a drag is active: its position becomes
    /// the committed baseline shifted by the pointer's travel from the
    /// anchor, and that position is handed back. Without an active drag, or
    /// without a current image, a no-op handing back nothing.
    pub fn move_mousemove(&mut self, x: i32, y: i32) -> (r: Option<Position>)
        ensures
            final(self).manifest == old(self).manifest,
            final(self).anchor == old(self).anchor,
            final(self).index == old(self).index,
            ({
                match old(self).anchor {
                    Some((ax, ay)) => {
                        if old(self).index < old(self).images@.len() {
                            let im = old(self).images@[old(self).index as int];
                            let px = pan_position(im.original_x, ax as int, x as int);
                            let py = pan_position(im.original_y, ay as int, y as int);
                            &&& final(self).images@ == old(self).images@.update(
                                old(self).index as int,
                                (ViewerImage { position_x: px, position_y: py, ..im }),
                            )
                            &&& r == Some(Position { x: px, y: py })
                        } else {
                            *final(self) == *old(self) && r is None
                        }
                    },
                    None => *final(self) == *old(self) && r is None,
                }
            }),
    {
        if let Some((ax, ay)) = self.anchor {
            if self.index < self.images.len() {
                let px = shifted(self.images[self.index].original_x, ax, x);
                let py = shifted(self.images[self.index].original_y, ay, y);
                self.images[self.index].position_x = px;
                self.images[self.index].position_y = py;
                proof {
                    assert(self.images@ =~= old(self).images@.update(
                        old(self).index as int,
                        (ViewerImage {
                            position_x: px,
                            position_y: py,
                            ..old(self).images@[old(self).index as int]
                        }),
                    ));
                }
                return Some(Position { x: px, y: py });
            }
        }
        None
    }

    /// Ends the active drag: the current image's position becomes its new
    /// baseline and the anchor is cleared. Without an active drag, a no-op;
    /// calling it twice is the same as calling it once.
    pub fn move_mouseup(&mut self)
        ensures
            final(self).manifest == old(self).manifest,
            final(self).index == old(self).index,
            final(self).anchor is None,
            ({
                match old(self).anchor {
                    Some(_) => {
                        if old(self).index < old(self).images@.len() {
                            let im = old(self).images@[old(self).index as int];
                            final(self).images@ == old(self).images@.update(
                                old(self).index as int,
                                (ViewerImage {
                                    original_x: im.position_x,
                                    original_y: im.position_y,
                                    ..im
                                }),
                            )
                        } else {
                            final(self).images@ == old(self).images@
                        }
                    },
                    None => final(self).images@ == old(self).images@,
                }
            }),
    {
        if self.anchor.is_some() {
            if self.index < self.images.len() {
                let px = self.images[self.index].position_x;
                let py = self.images[self.index].position_y;
                self.images[self.index].original_x = px;
                self.images[self.index].original_y = py;
                proof {
                    assert(self.images@ =~= old(self).images@.update(
                        old(self).index as int,
                        (ViewerImage {
                            original_x: px,
                            original_y: py,
                            ..old(self).images@[old(self).index as int]
                        }),
                    ));
                }
            }
        }
        self.anchor = None;
    }
}

} // verus!
