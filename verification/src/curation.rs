//! Curation: rectangular crop annotations in native pixel space, and the
//! collection of saved, independently pannable crop items.
//!
//! A crop is captured from two screen-space points and the zoom ratio of the
//! image at capture time; its coordinates always live in the image's
//! intrinsic resolution, never in the scaled on-screen size.

use vstd::prelude::*;
use vstd::arithmetic::div_mod::lemma_div_is_ordered;
use vstd::std_specs::cmp::PartialEqSpec;
use vstd::string::StringExecFns;

use crate::json::{dec_str, dec_u32, escape_string, escaped};
use crate::viewer::{pan_position, shifted, Position};

verus! {

// ---------------------------------------------------------------------------
// Crop rectangles and the zoom-correct coordinate mapping.
// ---------------------------------------------------------------------------

/// A rectangle in an image's native pixel space: two inclusive coordinate
/// ranges, one per axis, normalized so each start is at most its end.
#[derive(Clone, Copy, Debug, PartialEq, Eq, Structural)]
pub struct CropRegion {
    pub x_start: u32,
    pub x_end: u32,
    pub y_start: u32,
    pub y_end: u32,
}

impl CropRegion {
    /// Normalized: on each axis the range runs forward.
    pub open spec fn wf(self) -> bool {
        self.x_start <= self.x_end && self.y_start <= self.y_end
    }
}

/// One screen-space offset mapped into native pixel space: scaled by
/// `natural / display` (the zoom ratio at capture time), truncated to an
/// integer, and clamped into `u32`'s range.
pub open spec fn scale_coord(off: int, natural: int, display: int) -> u32
    recommends
        display > 0,
{
    if off <= 0 {
        0u32
    } else if off * natural / display > u32::MAX {
        u32::MAX
    } else {
        (off * natural / display) as u32
    }
}

/// The crop rectangle two points span, in native pixel space: on each axis
/// the smaller offset scales to the start and the larger to the end.
pub open spec fn crop_region_spec(
    ox: int,
    oy: int,
    tx: int,
    ty: int,
    natural: int,
    display: int,
) -> CropRegion {
    CropRegion {
        x_start: scale_coord(
            if ox <= tx {
                ox
            } else {
                tx
            },
            natural,
            display,
        ),
        x_end: scale_coord(
            if ox <= tx {
                tx
            } else {
                ox
            },
            natural,
            display,
        ),
        y_start: scale_coord(
            if oy <= ty {
                oy
            } else {
                ty
            },
            natural,
            display,
        ),
        y_end: scale_coord(
            if oy <= ty {
                ty
            } else {
                oy
            },
            natural,
            display,
        ),
    }
}

/// Scaling keeps the order of offsets.
proof fn lemma_scale_monotone(a: int, b: int, natural: int, display: int)
    requires
        a <= b,
        0 <= natural,
        0 < display,
    ensures
        scale_coord(a, natural, display) <= scale_coord(b, natural, display),
{
    if 0 < a {
        assert(a * natural <= b * natural) by (nonlinear_arith)
            requires
                0 < a <= b,
                0 <= natural,
        ;
        lemma_div_is_ordered(a * natural, b * natural, display);
    }
}

/// Swapping the two points leaves the crop rectangle identical: the mapping
/// depends only on which offset is smaller on each axis.
pub proof fn lemma_crop_order_independent(
    ox: int,
    oy: int,
    tx: int,
    ty: int,
    natural: int,
    display: int,
)
    ensures
        crop_region_spec(ox, oy, tx, ty, natural, display) == crop_region_spec(
            tx,
            ty,
            ox,
            oy,
            natural,
            display,
        ),
{
}

/// Every crop rectangle the mapping produces is normalized: on each axis
/// the start is at most the end.
pub proof fn lemma_crop_normalized(ox: int, oy: int, tx: int, ty: int, natural: int, display: int)
    requires
        0 <= natural,
        0 < display,
    ensures
        crop_region_spec(ox, oy, tx, ty, natural, display).wf(),
{
    if ox <= tx {
        lemma_scale_monotone(ox, tx, natural, display);
    } else {
        lemma_scale_monotone(tx, ox, natural, display);
    }
    if oy <= ty {
        lemma_scale_monotone(oy, ty, natural, display);
    } else {
        lemma_scale_monotone(ty, oy, natural, display);
    }
}

fn scale_coord_exec(off: i32, natural: u32, display: u32) -> (r: u32)
    requires
        display > 0,
    ensures
        r == scale_coord(off as int, natural as int, display as int),
{
    if off <= 0 {
        0
    } else {
        proof {
            assert((off as int) * (natural as int) <= 0x7fff_ffff * 0xffff_ffff)
                by (nonlinear_arith)
                requires
                    0 < off <= 0x7fff_ffff,
                    0 <= natural <= 0xffff_ffff,
            ;
        }
        let p: u64 = (off as u64) * (natural as u64);
        let q: u64 = p / (display as u64);
        if q > u32::MAX as u64 {
            u32::MAX
        } else {
            q as u32
        }
    }
}

// ---------------------------------------------------------------------------
// Curation items.
// ---------------------------------------------------------------------------

/// A saved crop annotation: where it came from, the crop rectangle, a
/// free-text description, and its own pan state for re-positioning in a
/// review view. Two items are equal exactly when every one of these fields
/// is equal; that value equality is how an item handed out by value is found
/// again.
#[derive(Debug)]
pub struct CurationItem {
    /// Id of the manifest the image belongs to.
    pub manifest_id: String,
    /// Id (source URI) of the image the crop was taken from.
    pub image_id: String,
    /// Display label carried over from the image.
    pub label: String,
    /// The crop rectangle, in native pixel space.
    pub crop: CropRegion,
    /// Free-text description, editable after capture.
    pub description: String,
    /// Current pan position.
    pub position_x: i64,
    pub position_y: i64,
    /// Baseline position committed by the last finished drag.
    pub original_x: i64,
    pub original_y: i64,
    /// Ratio of intrinsic to rendered width for this item's own display.
    pub zoom: u32,
}

/// Full structural equality over every field of two items, the pan state
/// included.
pub open spec fn items_equal(a: CurationItem, b: CurationItem) -> bool {
    &&& a.manifest_id@ == b.manifest_id@
    &&& a.image_id@ == b.image_id@
    &&& a.label@ == b.label@
    &&& a.crop == b.crop
    &&& a.description@ == b.description@
    &&& a.position_x == b.position_x
    &&& a.position_y == b.position_y
    &&& a.original_x == b.original_x
    &&& a.original_y == b.original_y
    &&& a.zoom == b.zoom
}

/// What `==` means on items: [`items_equal`], full structural equality over
/// every field. Two items agreeing on everything are equal; two items
/// differing in any one field, the description alone included, are not.
pub proof fn lemma_item_equality(a: CurationItem, b: CurationItem)
    ensures
        a.eq_spec(&b) <==> items_equal(a, b),
{
}

impl vstd::std_specs::cmp::PartialEqSpecImpl for CurationItem {
    open spec fn obeys_eq_spec() -> bool {
        true
    }

    open spec fn eq_spec(&self, other: &Self) -> bool {
        items_equal(*self, *other)
    }
}

impl PartialEq for CurationItem {
    fn eq(&self, other: &Self) -> (r: bool) {
        self.manifest_id == other.manifest_id && self.image_id == other.image_id && self.label
            == other.label && self.crop == other.crop && self.description == other.description
            && self.position_x == other.position_x && self.position_y == other.position_y
            && self.original_x == other.original_x && self.original_y == other.original_y
            && self.zoom == other.zoom
    }
}

impl Clone for CurationItem {
    /// A clone is equal to the original in every field.
    fn clone(&self) -> (r: Self)
        ensures
            r == *self,
    {
        CurationItem {
            manifest_id: self.manifest_id.clone(),
            image_id: self.image_id.clone(),
            label: self.label.clone(),
            crop: self.crop,
            description: self.description.clone(),
            position_x: self.position_x,
            position_y: self.position_y,
            original_x: self.original_x,
            original_y: self.original_y,
            zoom: self.zoom,
        }
    }
}

impl CurationItem {
    /// Captures a crop: the rectangle spanned by the two element-relative
    /// points, mapped into native pixel space with the zoom ratio
    /// `natural_width / display_width` of the image at capture time. The
    /// description starts empty and the pan state at rest.
    pub fn new(
        manifest_id: String,
        image_id: String,
        label: String,
        origin_x: i32,
        origin_y: i32,
        term_x: i32,
        term_y: i32,
        natural_width: u32,
        display_width: u32,
    ) -> (r: CurationItem)
        requires
            display_width > 0,
        ensures
            r.manifest_id@ == manifest_id@,
            r.image_id@ == image_id@,
            r.label@ == label@,
            r.crop == crop_region_spec(
                origin_x as int,
                origin_y as int,
                term_x as int,
                term_y as int,
                natural_width as int,
                display_width as int,
            ),
            r.crop.wf(),
            r.description@ == Seq::<char>::empty(),
            r.position_x == 0,
            r.position_y == 0,
            r.original_x == 0,
            r.original_y == 0,
            r.zoom == 1,
    {
        proof {
            lemma_crop_normalized(
                origin_x as int,
                origin_y as int,
                term_x as int,
                term_y as int,
                natural_width as int,
                display_width as int,
            );
        }
        let (xl, xr) = if origin_x <= term_x {
            (origin_x, term_x)
        } else {
            (term_x, origin_x)
        };
        let (yt, yb) = if origin_y <= term_y {
            (origin_y, term_y)
        } else {
            (term_y, origin_y)
        };
        let crop = CropRegion {
            x_start: scale_coord_exec(xl, natural_width, display_width),
            x_end: scale_coord_exec(xr, natural_width, display_width),
            y_start: scale_coord_exec(yt, natural_width, display_width),
            y_end: scale_coord_exec(yb, natural_width, display_width),
        };
        CurationItem {
            manifest_id,
            image_id,
            label,
            crop,
            description: String::new(),
            position_x: 0,
            position_y: 0,
            original_x: 0,
            original_y: 0,
            zoom: 1,
        }
    }

    /// Id of the manifest the image belongs to.
    pub fn manifest_id(&self) -> (r: String)
        ensures
            r@ == self.manifest_id@,
    {
        self.manifest_id.clone()
    }

    /// Id (source URI) of the image the crop was taken from.
    pub fn image_id(&self) -> (r: String)
        ensures
            r@ == self.image_id@,
    {
        self.image_id.clone()
    }

    /// The item's display label.
    pub fn label(&self) -> (r: String)
        ensures
            r@ == self.label@,
    {
        self.label.clone()
    }

    /// Start of the crop's horizontal range.
    pub fn get_x_start(&self) -> (r: u32)
        ensures
            r == self.crop.x_start,
    {
        self.crop.x_start
    }

    /// End of the crop's horizontal range.
    pub fn get_x_end(&self) -> (r: u32)
        ensures
            r == self.crop.x_end,
    {
        self.crop.x_end
    }

    /// Start of the crop's vertical range.
    pub fn get_y_start(&self) -> (r: u32)
        ensures
            r == self.crop.y_start,
    {
        self.crop.y_start
    }

    /// End of the crop's vertical range.
    pub fn get_y_end(&self) -> (r: u32)
        ensures
            r == self.crop.y_end,
    {
        self.crop.y_end
    }

    /// The item's description.
    pub fn description(&self) -> (r: String)
        ensures
            r@ == self.description@,
    {
        self.description.clone()
    }

    /// Replaces the description.
    pub fn set_description(&mut self, description: String)
        ensures
            *final(self) == (CurationItem { description, ..*old(self) }),
    {
        self.description = description;
    }

    /// The item's persistent fields as one JSON object: ids, label, the two
    /// crop ranges, and the description. The transient pan fields are
    /// excluded.
    pub open spec fn json_text(self) -> Seq<char> {
        "{\"manifest_id\":\""@ + escape_string(self.manifest_id@) + "\",\"image_id\":\""@
            + escape_string(self.image_id@) + "\",\"label\":\""@ + escape_string(self.label@)
            + "\",\"crop\":[{\"start\":"@ + dec_str(self.crop.x_start as nat) + ",\"end\":"@
            + dec_str(self.crop.x_end as nat) + "},{\"start\":"@ + dec_str(self.crop.y_start as nat)
            + ",\"end\":"@ + dec_str(self.crop.y_end as nat) + "}],\"description\":\""@
            + escape_string(self.description@) + "\"}"@
    }

    /// Serializes the item's persistent fields to JSON text, exactly
    /// [`Self::json_text`].
    pub fn json(&self) -> (r: Option<String>)
        ensures
            match r {
                Some(s) => s@ == self.json_text(),
                None => false,
            },
    {
        let mut out = String::new();
        out.append("{\"manifest_id\":\"");
        out.append(escaped(self.manifest_id.as_str()).as_str());
        out.append("\",\"image_id\":\"");
        out.append(escaped(self.image_id.as_str()).as_str());
        out.append("\",\"label\":\"");
        out.append(escaped(self.label.as_str()).as_str());
        out.append("\",\"crop\":[{\"start\":");
        out.append(dec_u32(self.crop.x_start).as_str());
        out.append(",\"end\":");
        out.append(dec_u32(self.crop.x_end).as_str());
        out.append("},{\"start\":");
        out.append(dec_u32(self.crop.y_start).as_str());
        out.append(",\"end\":");
        out.append(dec_u32(self.crop.y_end).as_str());
        out.append("}],\"description\":\"");
        out.append(escaped(self.description.as_str()).as_str());
        out.append("\"}");
        proof {
            assert(out@ =~= self.json_text());
        }
        Some(out)
    }
}

// ---------------------------------------------------------------------------
// The curation viewer: an ordered collection of items.
// ---------------------------------------------------------------------------

/// The curation review collection: saved items in insertion order, a
/// current index, and a drag anchor for re-positioning the current item.
pub struct WasmCurationViewer {
    /// The saved items, in the order they were pushed.
    pub items: Vec<CurationItem>,
    /// Index of the item currently shown.
    pub index: usize,
    /// Pointer position where the active drag started, if one is active.
    pub anchor: Option<(i32, i32)>,
}

impl WasmCurationViewer {
    /// An empty collection: no items, index zero, no active drag.
    pub fn new() -> (r: WasmCurationViewer)
        ensures
            r.items@.len() == 0,
            r.index == 0,
            r.anchor is None,
    {
        WasmCurationViewer { items: Vec::new(), index: 0, anchor: None }
    }

    /// The collection's own display label.
    pub fn label(&self) -> (r: String)
        ensures
            r@ == "Curation"@,
    {
        "Curation".to_owned()
    }

    /// The current item's label, or the empty string when the index is out
    /// of range.
    pub fn image_label(&self) -> (r: String)
        ensures
            r@ == if self.index < self.items@.len() {
                self.items@[self.index as int].label@
            } else {
                Seq::<char>::empty()
            },
    {
        if self.index < self.items.len() {
            self.items[self.index].label.clone()
        } else {
            String::new()
        }
    }

    /// A copy of the current item, or nothing when the index is out of
    /// range.
    pub fn now(&self) -> (r: Option<CurationItem>)
        ensures
            match r {
                Some(item) => self.index < self.items@.len() && item == self.items@[self.index as int],
                None => self.index >= self.items@.len(),
            },
    {
        if self.index < self.items.len() {
            Some(self.items[self.index].clone())
        } else {
            None
        }
    }

    /// Appends a copy of `item` to the collection.
    pub fn push(&mut self, item: &CurationItem)
        ensures
            final(self).items@ == old(self).items@.push(*item),
            final(self).index == old(self).index,
            final(self).anchor == old(self).anchor,
    {
        self.items.push(item.clone());
    }

    /// Removes the item at `index`, shifting the later ones down; out of
    /// range, a defined no-op. The current index is left as it is.
    pub fn remove(&mut self, index: usize)
        ensures
            final(self).index == old(self).index,
            final(self).anchor == old(self).anchor,
            index < old(self).items@.len() ==> final(self).items@ == old(self).items@.remove(
                index as int,
            ),
            index >= old(self).items@.len() ==> final(self).items@ == old(self).items@,
    {
        if index < self.items.len() {
            self.items.remove(index);
        }
    }

    /// Commits `index` as current when it is in range and the item's asset
    /// is attached; otherwise a no-op. The items themselves never change.
    pub fn show_by_index(&mut self, index: usize, has_asset: bool)
        ensures
            final(self).items == old(self).items,
            final(self).anchor == old(self).anchor,
            final(self).index == if index < old(self).items@.len() && has_asset {
                index as int
            } else {
                old(self).index as int
            },
    {
        if index < self.items.len() && has_asset {
            self.index = index;
        }
    }

    /// Finds `item` by full structural equality — the first equal element —
    /// and shows it as [`Self::show_by_index`] does; when nothing is equal,
    /// the current index is the fallback. The located index (or that
    /// fallback) is handed back either way.
    pub fn show(&mut self, item: &CurationItem, has_asset: bool) -> (r: usize)
        ensures
            final(self).items == old(self).items,
            final(self).anchor == old(self).anchor,
            (exists|i: int|
                0 <= i < old(self).items@.len() && items_equal(old(self).items@[i], *item)) ==> (0
                <= r < old(self).items@.len() && items_equal(old(self).items@[r as int], *item)
                && forall|j: int| 0 <= j < r ==> !items_equal(old(self).items@[j], *item)),
            !(exists|i: int|
                0 <= i < old(self).items@.len() && items_equal(old(self).items@[i], *item)) ==> r
                == old(self).index,
            final(self).index == if r < old(self).items@.len() && has_asset {
                r as int
            } else {
                old(self).index as int
            },
    {
        let index = self.locate(item);
        self.show_by_index(index, has_asset);
        index
    }

    /// The index of the first item structurally equal to `item`; when none
    /// is, the current index, unchanged, as a defined fallback.
    pub fn locate(&self, item: &CurationItem) -> (r: usize)
        ensures
            (exists|i: int|
                0 <= i < self.items@.len() && items_equal(self.items@[i], *item)) ==> (0 <= r
                < self.items@.len() && items_equal(self.items@[r as int], *item) && forall|j: int|
                0 <= j < r ==> !items_equal(self.items@[j], *item)),
            !(exists|i: int| 0 <= i < self.items@.len() && items_equal(self.items@[i], *item))
                ==> r == self.index,
    {
        let n = self.items.len();
        let mut i: usize = 0;
        while i < n
            invariant
                n == self.items@.len(),
                i <= n,
                forall|j: int| 0 <= j < i ==> !items_equal(self.items@[j], *item),
            decreases n - i,
        {
            if self.items[i].eq(item) {
                return i;
            }
            i += 1;
        }
        self.index
    }

    /// The index of the first item whose image id equals `src`; when none
    /// matches, the current index, unchanged, as a defined fallback.
    pub fn get_index_by_src(&self, src: String) -> (r: usize)
        ensures
            (exists|i: int|
                0 <= i < self.items@.len() && self.items@[i].image_id@ == src@) ==> (0 <= r
                < self.items@.len() && self.items@[r as int].image_id@ == src@ && forall|j: int|
                0 <= j < r ==> self.items@[j].image_id@ != src@),
            !(exists|i: int| 0 <= i < self.items@.len() && self.items@[i].image_id@ == src@)
                ==> r == self.index,
    {
        let n = self.items.len();
        let mut i: usize = 0;
        while i < n
            invariant
                n == self.items@.len(),
                i <= n,
                forall|j: int| 0 <= j < i ==> self.items@[j].image_id@ != src@,
            decreases n - i,
        {
            if self.items[i].image_id.eq(&src) {
                return i;
            }
            i += 1;
        }
        self.index
    }

    /// Shows the item after the current one, as [`Self::show_by_index`]
    /// does.
    pub fn next(&mut self, has_asset: bool)
        ensures
            final(self).items == old(self).items,
            final(self).anchor == old(self).anchor,
            final(self).index == if old(self).index + 1 < old(self).items@.len() && has_asset {
                old(self).index + 1
            } else {
                old(self).index as int
            },
    {
        let n = self.items.len();
        if self.index < n {
            self.show_by_index(self.index + 1, has_asset);
        }
    }

    /// Shows the item before the current one. At index zero this is a
    /// defined no-op: the index stays zero.
    pub fn prev(&mut self, has_asset: bool)
        ensures
            final(self).items == old(self).items,
            final(self).anchor == old(self).anchor,
            old(self).index == 0 ==> *final(self) == *old(self),
            old(self).index > 0 ==> final(self).index == if old(self).index - 1 < old(
                self,
            ).items@.len() && has_asset {
                old(self).index - 1
            } else {
                old(self).index as int
            },
    {
        if self.index > 0 {
            self.show_by_index(self.index - 1, has_asset);
        }
    }

    /// Shows the last item of the collection; with no items, a defined
    /// no-op.
    pub fn show_last(&mut self, has_asset: bool)
        ensures
            final(self).items == old(self).items,
            final(self).anchor == old(self).anchor,
            old(self).items@.len() == 0 ==> *final(self) == *old(self),
            old(self).items@.len() > 0 ==> final(self).index == if has_asset {
                old(self).items@.len() - 1
            } else {
                old(self).index as int
            },
    {
        let n = self.items.len();
        if n > 0 {
            self.show_by_index(n - 1, has_asset);
        }
    }

    /// Starts a drag at the given pointer position. A second start before
    /// the drag ends just moves the anchor: at most one drag is active.
    pub fn move_mousedown(&mut self, x: i32, y: i32)
        ensures
            *final(self) == (WasmCurationViewer { anchor: Some((x, y)), ..*old(self) }),
    {
        self.anchor = Some((x, y));
    }

    /// Moves the current item while a drag is active: its position becomes
    /// the committed baseline shifted by the pointer's travel from the
    /// anchor, and that position is handed back. Without an active drag, or
    /// without a current item, a no-op handing back nothing.
    pub fn move_mousemove(&mut self, x: i32, y: i32) -> (r: Option<Position>)
        ensures
            final(self).anchor == old(self).anchor,
            final(self).index == old(self).index,
            ({
                match old(self).anchor {
                    Some((ax, ay)) => {
                        if old(self).index < old(self).items@.len() {
                            let item = old(self).items@[old(self).index as int];
                            let px = pan_position(item.original_x, ax as int, x as int);
                            let py = pan_position(item.original_y, ay as int, y as int);
                            &&& final(self).items@ == old(self).items@.update(
                                old(self).index as int,
                                (CurationItem { position_x: px, position_y: py, ..item }),
                            )
                            &&& r == Some(Position { x: px, y: py })
                        } else {
                            *final(self) == *old(self) && r is None
                        }
                    },
                    None => *final(self) == *old(self) && r is None,
                }
            }),
    {
        if let Some((ax, ay)) = self.anchor {
            if self.index < self.items.len() {
                let px = shifted(self.items[self.index].original_x, ax, x);
                let py = shifted(self.items[self.index].original_y, ay, y);
                self.items[self.index].position_x = px;
                self.items[self.index].position_y = py;
                proof {
                    assert(self.items@ =~= old(self).items@.update(
                        old(self).index as int,
                        (CurationItem {
                            position_x: px,
                            position_y: py,
                            ..old(self).items@[old(self).index as int]
                        }),
                    ));
                }
                return Some(Position { x: px, y: py });
            }
        }
        None
    }

    /// Ends the active drag: the current item's position becomes its new
    /// baseline and the anchor is cleared. Without an active drag, a no-op;
    /// calling it twice is the same as calling it once.
    pub fn move_mouseup(&mut self)
        ensures
            final(self).index == old(self).index,
            final(self).anchor is None,
            ({
                match old(self).anchor {
                    Some(_) => {
                        if old(self).index < old(self).items@.len() {
                            let item = old(self).items@[old(self).index as int];
                            final(self).items@ == old(self).items@.update(
                                old(self).index as int,
                                (CurationItem {
                                    original_x: item.position_x,
                                    original_y: item.position_y,
                                    ..item
                                }),
                            )
                        } else {
                            final(self).items@ == old(self).items@
                        }
                    },
                    None => final(self).items@ == old(self).items@,
                }
            }),
    {
        if self.anchor.is_some() {
            if self.index < self.items.len() {
                let px = self.items[self.index].position_x;
                let py = self.items[self.index].position_y;
                self.items[self.index].original_x = px;
                self.items[self.index].original_y = py;
                proof {
                    assert(self.items@ =~= old(self).items@.update(
                        old(self).index as int,
                        (CurationItem {
                            original_x: px,
                            original_y: py,
                            ..old(self).items@[old(self).index as int]
                        }),
                    ));
                }
            }
        }
        self.anchor = None;
    }
}

} // verus!

