//! The viewer's non-visual state: the two image slots, their edge caches,
//! decodes in flight and the drop gesture, with the decisions the viewer
//! makes on each event.
use vstd::prelude::*;

use crate::egui_api::{
    color_image_dims, color_image_from_rgba, color_image_pixels, color_image_size, holds_unmultiplied,
    load_texture, texture_pixels, TextureSideLimit,
};
use crate::load::multi_drop_side;
use crate::state::{
    count_after_finish, next_image_id, successor_id, AsyncIo, DropState, EdgeCache, EdgeState, ImageIdCounter,
};
use crate::types::{DecodeOutcome, DecodedImage, LoadedImage, Side};

verus! {

/// What the central area of the viewer shows.
#[derive(Clone, Copy, Debug, PartialEq, Eq, Structural)]
pub enum CentralView {
    /// A decode is in flight.
    Loading,
    /// Both sides hold an image.
    Comparison,
    /// At least one side is empty: the drop zone invites the next image.
    DropZone,
}

/// Everything the comparison viewer keeps besides pan, zoom and separator.
pub struct CompareState {
    pub left: Option<LoadedImage>,
    pub right: Option<LoadedImage>,
    pub edges: EdgeState,
    pub io: AsyncIo,
    pub drop: DropState,
    pub ids: ImageIdCounter,
    /// The texture side limit the context reported when a decoded image
    /// was last taken in by `apply_decoded`.
    pub texture_limit: Option<TextureSideLimit>,
}

impl CompareState {
    /// Both slots empty, nothing cached, nothing in flight, ids from 0.
    pub fn new() -> (st: Self)
        ensures
            st.left is None,
            st.right is None,
            !st.edges.enabled,
            st.edges.is_empty(),
            st.io.pending_loads == 0,
            !st.drop.was_hovering,
            st.drop.expected == 0,
            st.drop.index == 0,
            st.ids.next == 0,
            st.io.channels_connected(),
            st.ids_below_counter(),
            st.texture_limit is None,
    {
        CompareState {
            left: None,
            right: None,
            edges: EdgeState::new(),
            io: AsyncIo::new(),
            drop: DropState::new(),
            ids: ImageIdCounter::new(),
            texture_limit: None,
        }
    }

    /// The image held on one side.
    pub open spec fn slot(self, side: Side) -> Option<LoadedImage> {
        match side {
            Side::Left => self.left,
            Side::Right => self.right,
        }
    }

    /// The side an image without a requested side goes to: the first empty
    /// side, otherwise the right.
    pub open spec fn spec_auto_route_side(self) -> Side {
        if self.left is None {
            Side::Left
        } else {
            Side::Right
        }
    }

    /// What the central area shows: the loading screen while any decode is
    /// in flight, otherwise the comparison once both sides hold an image,
    /// otherwise the drop zone.
    pub open spec fn spec_central_view(self) -> CentralView {
        if self.io.pending_loads > 0 {
            CentralView::Loading
        } else if self.left is Some && self.right is Some {
            CentralView::Comparison
        } else {
            CentralView::DropZone
        }
    }

    /// What the central area shows now.
    pub fn central_view(&self) -> (v: CentralView)
        ensures
            v == self.spec_central_view(),
    {
        if self.io.pending_loads > 0 {
            CentralView::Loading
        } else if self.left.is_some() && self.right.is_some() {
            CentralView::Comparison
        } else {
            CentralView::DropZone
        }
    }

    /// Title of the drop zone: it asks for the first image while the left
    /// side is empty and for the second one after that.
    pub fn drop_zone_title(&self) -> (t: &'static str)
        ensures
            t@ == if self.left is None { "First image"@ } else { "Second image"@ },
    {
        if self.left.is_none() {
            "First image"
        } else {
            "Second image"
        }
    }

    /// Borrow the image on one side, if any.
    pub fn image(&self, side: Side) -> (img: Option<&LoadedImage>)
        ensures
            img is None <==> self.slot(side) is None,
            img matches Some(i) ==> self.slot(side) == Some(*i),
    {
        match side {
            Side::Left => self.left.as_ref(),
            Side::Right => self.right.as_ref(),
        }
    }

    /// First empty side, otherwise the right side.
    pub fn auto_route_side(&self) -> (s: Side)
        ensures
            s == self.spec_auto_route_side(),
    {
        if self.left.is_none() {
            Side::Left
        } else {
            Side::Right
        }
    }

    /// Side for a picked or pasted file.
    pub open spec fn spec_side_for_picked(self, requested: Option<Side>) -> Side {
        match requested {
            Some(r) => r,
            None => self.spec_auto_route_side(),
        }
    }

    /// Side for a picked or pasted file: the one it asked for, or the
    /// auto-routed side when it asked for none.
    pub fn side_for_picked(&self, requested: Option<Side>) -> (s: Side)
        ensures
            s == self.spec_side_for_picked(requested),
    {
        match requested {
            Some(r) => r,
            None => self.auto_route_side(),
        }
    }

    /// Assign a loaded image to one side, clearing that side's cached edges.
    /// The other side, its cache and all other state are unchanged.
    pub fn set_image(&mut self, side: Side, loaded: LoadedImage)
        ensures
            final(self).slot(side) == Some(loaded),
            forall|s: Side| s != side ==> final(self).slot(s) == old(self).slot(s),
            side == Side::Left ==> final(self).right == old(self).right,
            side == Side::Right ==> final(self).left == old(self).left,
            final(self).edges.spec_cache(side).texture is None,
            final(self).edges.spec_cache(side).key is None,
            forall|s: Side| s != side ==> final(self).edges.spec_cache(s) == old(self).edges.spec_cache(s),
            final(self).edges.enabled == old(self).edges.enabled,
            final(self).edges.polarity == old(self).edges.polarity,
            final(self).io == old(self).io,
            final(self).drop == old(self).drop,
            final(self).ids == old(self).ids,
            final(self).texture_limit == old(self).texture_limit,
            old(self).ids_below_counter() && loaded.id < old(self).ids.next ==> final(self).ids_below_counter(),
    {
        match side {
            Side::Left => {
                self.left = Some(loaded);
            },
            Side::Right => {
                self.right = Some(loaded);
            },
        }
        self.edges.clear_side(side);
    }

    /// Route the next file of the current drop gesture. In a multi-file drop
    /// the first file goes left, the second right and any further file is
    /// skipped (`None`); a single-file drop is auto-routed. Either way the
    /// gesture's routing index moves on by one.
    pub fn route_dropped(&mut self) -> (s: Option<Side>)
        requires
            old(self).drop.index < usize::MAX,
        ensures
            s == old(self).drop.spec_route(old(self).left is None),
            final(self).drop == old(self).drop.after_route(),
            final(self).left == old(self).left,
            final(self).right == old(self).right,
            final(self).edges == old(self).edges,
            final(self).io == old(self).io,
            final(self).ids == old(self).ids,
            final(self).texture_limit == old(self).texture_limit,
    {
        let side = if self.drop.expected >= 2 {
            multi_drop_side(self.drop.index)
        } else {
            Some(self.auto_route_side())
        };
        self.drop.index = self.drop.index + 1;
        side
    }

    /// Held images have ids the counter has already handed out: every id
    /// held is below the counter's next value, so the next id is new.
    pub open spec fn ids_below_counter(self) -> bool {
        &&& (self.left matches Some(img) ==> img.id < self.ids.next)
        &&& (self.right matches Some(img) ==> img.id < self.ids.next)
    }

    /// An image of `size` fits the texture side limit.
    pub open spec fn fits_limit(size: [usize; 2], limit: TextureSideLimit) -> bool {
        size[0] <= limit.spec_side() && size[1] <= limit.spec_side()
    }

    /// Build a `LoadedImage` (texture plus cached pixels) from decoded RGBA8
    /// data, giving it the next image id. An image with a side longer than
    /// `limit` cannot be uploaded and is refused (`None`, nothing changed).
    pub fn build_loaded_image(
        &mut self,
        ctx: &egui::Context,
        name: &str,
        file_size: usize,
        size: [usize; 2],
        raw: Vec<u8>,
        limit: &TextureSideLimit,
    ) -> (img: Option<LoadedImage>)
        requires
            size[0] * size[1] * 4 == raw@.len(),
        ensures
            img is Some <==> Self::fits_limit(size, *limit),
            img matches Some(i) ==> {
                &&& i.name@ == name@
                &&& i.file_size == file_size
                &&& i.size == size
                &&& i.rgba@ == raw@
                &&& holds_unmultiplied(texture_pixels(i.texture), size, raw@)
                &&& i.texture_limit == *limit
                &&& i.id == old(self).ids.next
                &&& final(self).ids.next == successor_id(old(self).ids.next)
            },
            img is None ==> final(self).ids == old(self).ids,
            final(self).left == old(self).left,
            final(self).right == old(self).right,
            final(self).edges == old(self).edges,
            final(self).io == old(self).io,
            final(self).drop == old(self).drop,
            final(self).texture_limit == old(self).texture_limit,
    {
        let max_side = limit.side();
        if size[0] > max_side || size[1] > max_side {
            return None;
        }
        let color_image = color_image_from_rgba(size, raw.as_slice());
        let texture = load_texture(ctx, name, color_image, limit);
        let id = next_image_id(&mut self.ids);
        Some(
            LoadedImage {
                texture,
                name: name.to_owned(),
                size,
                file_size,
                rgba: raw,
                id,
                texture_limit: *limit,
            },
        )
    }

    /// `new` is `old` after a finished decode that placed nothing: only the
    /// in-flight count moved.
    pub open spec fn only_finished(old: CompareState, new: CompareState) -> bool {
        &&& new.io == (AsyncIo { pending_loads: count_after_finish(old.io.pending_loads), ..old.io })
        &&& new.drop == old.drop
        &&& new.left == old.left
        &&& new.right == old.right
        &&& new.edges == old.edges
        &&& new.ids == old.ids
    }

    /// `new` is `old` after the decoded image `d` was placed: the in-flight
    /// count moved, `d` became the image of its side under the next id, with
    /// its pixels uploaded and that side's edge cache cleared; all else is
    /// kept.
    pub open spec fn placed_decoded(old: CompareState, new: CompareState, d: DecodedImage) -> bool {
        &&& new.io == (AsyncIo { pending_loads: count_after_finish(old.io.pending_loads), ..old.io })
        &&& new.drop == old.drop
        &&& new.edges.enabled == old.edges.enabled
        &&& new.edges.polarity == old.edges.polarity
        &&& new.slot(d.side) matches Some(img)
        &&& img.name@ == d.name@
        &&& img.file_size == d.file_size
        &&& img.size == d.size
        &&& img.rgba@ == d.rgba@
        &&& holds_unmultiplied(texture_pixels(img.texture), d.size, d.rgba@)
        &&& img.id == old.ids.next
        &&& new.ids.next == successor_id(old.ids.next)
        &&& new.edges.spec_cache(d.side).texture is None
        &&& new.edges.spec_cache(d.side).key is None
        &&& forall|s: Side| s != d.side ==> new.slot(s) == old.slot(s)
        &&& forall|s: Side| s != d.side ==> new.edges.spec_cache(s) == old.edges.spec_cache(s)
    }

    /// Take in one finished decode with the texture side limit already
    /// read: the in-flight count drops by one (never below zero); a
    /// successful decode whose sides fit `limit` becomes the image of its
    /// side, with the next image id and that side's edge cache cleared.
    /// Returns whether an image was placed; a failed decode or an image too
    /// large to upload places nothing.
    pub fn apply_decoded_within(
        &mut self,
        ctx: &egui::Context,
        outcome: DecodeOutcome,
        limit: &TextureSideLimit,
    ) -> (placed: bool)
        requires
            outcome matches DecodeOutcome::Decoded(d) ==> d.size[0] * d.size[1] * 4 == d.rgba@.len(),
        ensures
            placed == (outcome matches DecodeOutcome::Decoded(d) && Self::fits_limit(d.size, *limit)),
            placed ==> Self::placed_decoded(*old(self), *final(self), outcome->Decoded_0),
            placed ==> final(self).slot(outcome->Decoded_0.side)->0.texture_limit == *limit,
            !placed ==> Self::only_finished(*old(self), *final(self)),
            old(self).ids_below_counter() && old(self).ids.next < u64::MAX ==> final(self).ids_below_counter(),
            final(self).texture_limit == old(self).texture_limit,
    {
        self.io.finish_load();
        match outcome {
            DecodeOutcome::Decoded(d) => {
                let side = d.side;
                match self.build_loaded_image(ctx, d.name.as_str(), d.file_size, d.size, d.rgba, limit) {
                    Some(loaded) => {
                        self.set_image(side, loaded);
                        true
                    },
                    None => false,
                }
            },
            DecodeOutcome::Failed => false,
        }
    }

    /// Take in one finished decode: the in-flight count drops by one (never
    /// below zero). The context's texture side limit is read and kept in
    /// `texture_limit`, and a successful decode whose width and height both
    /// fit it is placed on its side as `apply_decoded_within` does; a failed
    /// decode, or an image too large for the limit, places nothing. Returns
    /// whether an image was placed.
    pub fn apply_decoded(&mut self, ctx: &egui::Context, outcome: DecodeOutcome) -> (placed: bool)
        requires
            outcome matches DecodeOutcome::Decoded(d) ==> d.size[0] * d.size[1] * 4 == d.rgba@.len(),
        ensures
            final(self).texture_limit is Some,
            placed == (outcome matches DecodeOutcome::Decoded(d) && Self::fits_limit(d.size, final(self).texture_limit->0)),
            placed ==> Self::placed_decoded(*old(self), *final(self), outcome->Decoded_0),
            placed ==> final(self).slot(outcome->Decoded_0.side)->0.texture_limit == final(self).texture_limit->0,
            !placed ==> Self::only_finished(*old(self), *final(self)),
            old(self).ids_below_counter() && old(self).ids.next < u64::MAX ==> final(self).ids_below_counter(),
    {
        let limit = TextureSideLimit::of(ctx);
        self.texture_limit = Some(limit);
        self.apply_decoded_within(ctx, outcome, &limit)
    }

    /// Clear both images and cached edges (edge detection is switched off
    /// again); in-flight decodes, the drop gesture and the id counter stay.
    pub fn clear_all(&mut self)
        ensures
            final(self).left is None,
            final(self).right is None,
            !final(self).edges.enabled,
            final(self).edges.polarity == crate::state::EdgePolarity::Negative,
            final(self).edges.is_empty(),
            final(self).io == old(self).io,
            final(self).drop == old(self).drop,
            final(self).ids == old(self).ids,
            final(self).texture_limit == old(self).texture_limit,
    {
        self.left = None;
        self.right = None;
        self.edges = EdgeState::new();
    }

    /// Whether the side holds an image whose edge map is not cached.
    pub open spec fn spec_needs_edge(self, side: Side) -> bool {
        match self.slot(side) {
            Some(img) => !self.edges.spec_cache(side).holds(img.id),
            None => false,
        }
    }

    /// First step of edge computation for one side: a side without an image
    /// has its cache dropped and needs nothing; a side with an image needs a
    /// new edge map exactly when its cache was not built from that image.
    pub fn needs_edge_compute(&mut self, side: Side) -> (needed: bool)
        ensures
            needed == old(self).spec_needs_edge(side),
            old(self).slot(side) is None ==> {
                &&& final(self).edges.spec_cache(side).texture is None
                &&& final(self).edges.spec_cache(side).key is None
            },
            old(self).slot(side) is Some ==> final(self).edges == old(self).edges,
            forall|s: Side| s != side ==> final(self).edges.spec_cache(s) == old(self).edges.spec_cache(s),
            final(self).edges.enabled == old(self).edges.enabled,
            final(self).edges.polarity == old(self).edges.polarity,
            final(self).left == old(self).left,
            final(self).right == old(self).right,
            final(self).io == old(self).io,
            final(self).drop == old(self).drop,
            final(self).ids == old(self).ids,
            final(self).texture_limit == old(self).texture_limit,
    {
        let id = match self.image(side) {
            Some(img) => img.id,
            None => {
                self.edges.clear_side(side);
                return false;
            },
        };
        self.edges.cache(side).needs_recompute(id)
    }

    /// `new` is `old` with the edge map `edge_image` uploaded and cached on
    /// `side` under the id of that side's image; all else is kept.
    pub open spec fn stored_edge(old: CompareState, new: CompareState, side: Side, edge_image: egui::ColorImage) -> bool {
        &&& new.edges.spec_cache(side).texture matches Some(t)
        &&& texture_pixels(t) == color_image_pixels(edge_image)
        &&& new.edges.spec_cache(side).key == Some(old.slot(side)->0.id)
        &&& forall|s: Side| s != side ==> new.edges.spec_cache(s) == old.edges.spec_cache(s)
        &&& new.edges.enabled == old.edges.enabled
        &&& new.edges.polarity == old.edges.polarity
        &&& new.left == old.left
        &&& new.right == old.right
        &&& new.io == old.io
        &&& new.drop == old.drop
        &&& new.ids == old.ids
        &&& new.texture_limit == old.texture_limit
    }

    /// Upload an edge map computed from the image on `side` and cache it
    /// under that image's id, when its sides fit `limit`; an edge map too
    /// large to upload is refused and nothing changes. Returns whether it
    /// was stored.
    pub fn store_edge_within(
        &mut self,
        ctx: &egui::Context,
        side: Side,
        edge_image: egui::ColorImage,
        limit: &TextureSideLimit,
    ) -> (stored: bool)
        requires
            old(self).slot(side) is Some,
        ensures
            stored == Self::fits_limit(color_image_size(edge_image), *limit),
            stored ==> Self::stored_edge(*old(self), *final(self), side, edge_image),
            !stored ==> *final(self) == *old(self),
    {
        let dims = color_image_dims(&edge_image);
        let max_side = limit.side();
        if dims[0] > max_side || dims[1] > max_side {
            return false;
        }
        let (id, mut name) = match self.image(side) {
            Some(img) => (img.id, img.name.clone()),
            None => {
                return false;
            },
        };
        name.append("_edge");
        let texture = load_texture(ctx, name.as_str(), edge_image, limit);
        let mut cache = EdgeCache { texture: Some(texture), key: Some(id) };
        std::mem::swap(&mut cache, &mut self.edges.caches[side.index()]);
        true
    }

    /// Upload an edge map computed from the image on `side` and cache it
    /// under that image's id, when its width and height both fit the
    /// texture side limit of the context that image was uploaded to (`ctx`
    /// must be that context); an edge map too large is refused and nothing
    /// changes. Returns whether it was stored.
    pub fn store_edge(&mut self, ctx: &egui::Context, side: Side, edge_image: egui::ColorImage) -> (stored: bool)
        requires
            old(self).slot(side) is Some,
        ensures
            stored == Self::fits_limit(color_image_size(edge_image), old(self).slot(side)->0.texture_limit),
            stored ==> Self::stored_edge(*old(self), *final(self), side, edge_image),
            !stored ==> *final(self) == *old(self),
    {
        let limit = match self.image(side) {
            Some(img) => img.texture_limit,
            None => {
                return false;
            },
        };
        self.store_edge_within(ctx, side, edge_image, &limit)
    }
}

impl Default for CompareState {
    fn default() -> (st: Self)
        ensures
            st.left is None,
            st.right is None,
            !st.edges.enabled,
            st.edges.is_empty(),
            st.io.pending_loads == 0,
            !st.drop.was_hovering,
            st.drop.expected == 0,
            st.drop.index == 0,
            st.ids.next == 0,
            st.io.channels_connected(),
            st.ids_below_counter(),
            st.texture_limit is None,
    {
        CompareState::new()
    }
}

/// While held images have ids below the counter, a newly placed decoded
/// image gets an id that no image held before it has.
pub proof fn law_decoded_id_is_new(old: CompareState, new: CompareState, d: DecodedImage, s: Side)
    requires
        old.ids_below_counter(),
        CompareState::placed_decoded(old, new, d),
        old.slot(s) is Some,
    ensures
        old.slot(s)->0.id != new.slot(d.side)->0.id,
{
}

/// An image just placed on a side (its cache cleared, as `set_image` and
/// `apply_decoded` leave it) needs its edge map computed.
pub proof fn law_placed_image_needs_edges(st: CompareState, side: Side)
    requires
        st.slot(side) is Some,
        st.edges.spec_cache(side).texture is None,
    ensures
        st.spec_needs_edge(side),
{
}

/// Once `store_edge` has cached an edge map for the image on a side, that
/// side needs no recomputation until its image changes.
pub proof fn law_stored_edge_is_current(st: CompareState, side: Side)
    requires
        st.slot(side) is Some,
        st.edges.spec_cache(side).texture is Some,
        st.edges.spec_cache(side).key == Some(st.slot(side)->0.id),
    ensures
        !st.spec_needs_edge(side),
{
}

/// The loading screen takes precedence: while any decode is in flight the
/// central area shows it, whatever the two sides hold. With nothing in
/// flight it shows the comparison exactly when both sides hold an image, and
/// the drop zone exactly when a side is empty.
pub proof fn law_central_view(st: CompareState)
    ensures
        st.io.pending_loads > 0 ==> st.spec_central_view() == CentralView::Loading,
        st.io.pending_loads == 0 ==> (st.spec_central_view() == CentralView::Comparison
            <==> (st.left is Some && st.right is Some)),
        st.io.pending_loads == 0 ==> (st.spec_central_view() == CentralView::DropZone
            <==> (st.left is None || st.right is None)),
{
}

/// A file that asks for no side goes to the left side exactly when the left
/// side is empty, and to the right side otherwise, whatever the right side
/// holds; a file that asks for a side gets it.
pub proof fn law_auto_route_first_empty(st: CompareState, requested: Option<Side>)
    ensures
        (st.spec_auto_route_side() == Side::Left) <==> st.left is None,
        (st.spec_auto_route_side() == Side::Right) <==> st.left is Some,
        requested matches Some(r) ==> st.spec_side_for_picked(requested) == r,
        requested is None ==> (st.spec_side_for_picked(requested) == Side::Left <==> st.left is None),
{
}

/// A single-file drop in `route_dropped` follows the same rule as a picked
/// file without a side: left exactly when the left side is empty.
pub proof fn law_single_drop_goes_to_first_empty(st: CompareState)
    requires
        st.drop.expected < 2,
    ensures
        st.drop.spec_route(st.left is None) == Some(if st.left is None { Side::Left } else { Side::Right }),
        st.drop.spec_route(st.left is None) == Some(st.spec_auto_route_side()),
{
}

} // verus!
