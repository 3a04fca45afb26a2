//! Per-session bookkeeping: image ids, cached edge textures, in-flight
//! decodes and the drag-and-drop gesture in progress.
use vstd::prelude::*;

use crate::std_api::{decode_channel, decodes_connected, file_channel, files_connected};
use crate::load::spec_multi_drop_side;
use crate::types::{DecodeOutcome, LoadedFile, Side};

verus! {

/// Source of image ids. Each loaded image gets the counter's current value,
/// which is then advanced by one (wrapping at `u64::MAX`, as an atomic
/// `fetch_add` does).
pub struct ImageIdCounter {
    pub next: u64,
}

impl ImageIdCounter {
    /// A counter whose first id is 0.
    pub fn new() -> (c: Self)
        ensures
            c.next == 0,
    {
        ImageIdCounter { next: 0 }
    }
}

/// The id that follows `id`, wrapping at `u64::MAX`.
pub open spec fn successor_id(id: u64) -> u64 {
    if id == u64::MAX {
        0
    } else {
        (id + 1) as u64
    }
}

/// Returns a fresh image id: the counter's current value. The counter moves
/// on to the next value, so ids increase from one call to the next until the
/// counter wraps.
pub fn next_image_id(counter: &mut ImageIdCounter) -> (id: u64)
    ensures
        id == old(counter).next,
        final(counter).next == successor_id(old(counter).next),
{
    let id = counter.next;
    counter.next = counter.next.wrapping_add(1);
    id
}

/// Cached edge texture for one side, keyed by the source image's `id`.
pub struct EdgeCache {
    pub texture: Option<egui::TextureHandle>,
    pub key: Option<u64>,
}

impl EdgeCache {
    /// An empty cache.
    pub fn empty() -> (c: Self)
        ensures
            c.texture is None,
            c.key is None,
    {
        EdgeCache { texture: None, key: None }
    }

    /// Whether the cache holds a texture built from image `image_id`.
    pub open spec fn holds(self, image_id: u64) -> bool {
        self.texture is Some && self.key == Some(image_id)
    }

    /// Drops the cached texture and its key.
    pub fn clear(&mut self)
        ensures
            final(self).texture is None,
            final(self).key is None,
    {
        self.texture = None;
        self.key = None;
    }

    /// Whether the cache is missing or was built for a different image.
    pub fn needs_recompute(&self, image_id: u64) -> (r: bool)
        ensures
            r == !self.holds(image_id),
    {
        match self.key {
            Some(k) => self.texture.is_none() || k != image_id,
            None => true,
        }
    }
}

impl Default for EdgeCache {
    fn default() -> (c: Self)
        ensures
            c.texture is None,
            c.key is None,
    {
        EdgeCache::empty()
    }
}

/// Edge display polarity: magnitude as light-on-dark or dark-on-light.
#[derive(Clone, Copy, Debug, PartialEq, Eq, Structural)]
pub enum EdgePolarity {
    /// White edges on black background (Sobel magnitude as-is).
    Negative,
    /// Black edges on white background (inverted magnitude).
    Positive,
}

impl EdgePolarity {
    /// The grey level shown for an edge magnitude under this polarity.
    pub open spec fn spec_shade(self, magnitude: u8) -> u8 {
        match self {
            EdgePolarity::Negative => magnitude,
            EdgePolarity::Positive => (255 - magnitude) as u8,
        }
    }

    /// Grey level for an edge magnitude: the magnitude itself, or its
    /// inverse `255 - magnitude` for dark-on-light display.
    pub fn shade(self, magnitude: u8) -> (g: u8)
        ensures
            g == self.spec_shade(magnitude),
    {
        match self {
            EdgePolarity::Negative => magnitude,
            EdgePolarity::Positive => 255 - magnitude,
        }
    }
}

impl Default for EdgePolarity {
    fn default() -> (p: Self)
        ensures
            p == EdgePolarity::Negative,
    {
        EdgePolarity::Negative
    }
}

/// Edge-detection toggle plus per-side cached edge textures.
pub struct EdgeState {
    pub enabled: bool,
    pub polarity: EdgePolarity,
    /// Indexed by `Side::index`.
    pub caches: [EdgeCache; 2],
}

impl EdgeState {
    /// Edge detection off, negative polarity, nothing cached.
    pub fn new() -> (e: Self)
        ensures
            !e.enabled,
            e.polarity == EdgePolarity::Negative,
            e.is_empty(),
    {
        EdgeState {
            enabled: false,
            polarity: EdgePolarity::Negative,
            caches: [EdgeCache::empty(), EdgeCache::empty()],
        }
    }

    /// The cache of one side.
    pub open spec fn spec_cache(self, side: Side) -> EdgeCache {
        self.caches@[side.spec_index()]
    }

    /// Neither side holds a cached texture.
    pub open spec fn is_empty(self) -> bool {
        &&& self.spec_cache(Side::Left).texture is None
        &&& self.spec_cache(Side::Left).key is None
        &&& self.spec_cache(Side::Right).texture is None
        &&& self.spec_cache(Side::Right).key is None
    }

    pub fn cache(&self, side: Side) -> (c: &EdgeCache)
        ensures
            *c == self.spec_cache(side),
    {
        &self.caches[side.index()]
    }

    /// Mutable access to the cache of one side; whatever is written through
    /// it becomes that side's cache, and the rest of the state is kept.
    pub fn cache_mut(&mut self, side: Side) -> (c: &mut EdgeCache)
        ensures
            *c == old(self).spec_cache(side),
            final(self).enabled == old(self).enabled,
            final(self).polarity == old(self).polarity,
            final(self).spec_cache(side) == *final(c),
            forall|s: Side| s != side ==> final(self).spec_cache(s) == old(self).spec_cache(s),
    {
        &mut self.caches[side.index()]
    }

    /// Drops the cached texture of one side; the other side, the toggle and
    /// the polarity are unchanged.
    pub fn clear_side(&mut self, side: Side)
        ensures
            final(self).enabled == old(self).enabled,
            final(self).polarity == old(self).polarity,
            final(self).spec_cache(side).texture is None,
            final(self).spec_cache(side).key is None,
            forall|s: Side| s != side ==> final(self).spec_cache(s) == old(self).spec_cache(s),
    {
        let i = side.index();
        let mut c = EdgeCache::empty();
        std::mem::swap(&mut c, &mut self.caches[i]);
    }
}

impl Default for EdgeState {
    fn default() -> (e: Self)
        ensures
            !e.enabled,
            e.polarity == EdgePolarity::Negative,
            e.is_empty(),
    {
        EdgeState::new()
    }
}

/// The in-flight count after one decode finishes: one less, but never
/// below zero.
pub open spec fn count_after_finish(pending: usize) -> usize {
    if pending == 0 {
        0
    } else {
        (pending - 1) as usize
    }
}

/// Channels and counters coordinating asynchronous file picking and decoding.
pub struct AsyncIo {
    pub file_tx: std::sync::mpsc::Sender<LoadedFile>,
    pub file_rx: std::sync::mpsc::Receiver<LoadedFile>,
    pub decoded_tx: std::sync::mpsc::Sender<DecodeOutcome>,
    pub decoded_rx: std::sync::mpsc::Receiver<DecodeOutcome>,
    /// Number of images currently being decoded. While > 0 a loading screen
    /// is shown.
    pub pending_loads: usize,
}

impl AsyncIo {
    /// Files sent on `file_tx` arrive on `file_rx`, and decode results sent
    /// on `decoded_tx` arrive on `decoded_rx`.
    pub open spec fn channels_connected(self) -> bool {
        &&& files_connected(self.file_tx, self.file_rx)
        &&& decodes_connected(self.decoded_tx, self.decoded_rx)
    }

    /// Two fresh channels and no decode in flight: each sender feeds the
    /// receiver beside it.
    pub fn new() -> (io: Self)
        ensures
            io.pending_loads == 0,
            io.channels_connected(),
    {
        let (file_tx, file_rx) = file_channel();
        let (decoded_tx, decoded_rx) = decode_channel();
        AsyncIo { file_tx, file_rx, decoded_tx, decoded_rx, pending_loads: 0 }
    }

    /// Records that one more decode has been started.
    pub fn begin_load(&mut self)
        requires
            old(self).pending_loads < usize::MAX,
        ensures
            *final(self) == (AsyncIo { pending_loads: (old(self).pending_loads + 1) as usize, ..*old(self) }),
    {
        self.pending_loads = self.pending_loads + 1;
    }

    /// Records that a decode has finished, successfully or not. The count
    /// never goes below zero.
    pub fn finish_load(&mut self)
        ensures
            *final(self) == (AsyncIo { pending_loads: count_after_finish(old(self).pending_loads), ..*old(self) }),
    {
        self.pending_loads = self.pending_loads.saturating_sub(1);
    }
}

impl Default for AsyncIo {
    fn default() -> (io: Self)
        ensures
            io.pending_loads == 0,
            io.channels_connected(),
    {
        AsyncIo::new()
    }
}

/// Tracks an in-progress drag-and-drop gesture so files trickling in across
/// frames can be routed to the correct side.
pub struct DropState {
    /// Whether a drag gesture was hovering files over the window last frame.
    pub was_hovering: bool,
    /// Number of files in the current/most recent drag gesture.
    pub expected: usize,
    /// How many files of the current drop gesture have been routed so far.
    pub index: usize,
}

impl DropState {
    /// No gesture seen yet.
    pub fn new() -> (d: Self)
        ensures
            !d.was_hovering,
            d.expected == 0,
            d.index == 0,
    {
        DropState { was_hovering: false, expected: 0, index: 0 }
    }

    /// The state after a frame in which `hovering_count` files were dragged
    /// over the window.
    pub open spec fn after_hover(self, hovering_count: usize) -> DropState {
        if hovering_count > 0 {
            DropState {
                was_hovering: true,
                expected: hovering_count,
                index: if self.was_hovering { self.index } else { 0 },
            }
        } else {
            DropState { was_hovering: false, ..self }
        }
    }

    /// Side for the next file of the current drop: in a multi-file drop the
    /// file's position decides (first left, second right, later ones
    /// nowhere); a single-file drop goes to the left side when it is empty
    /// and to the right otherwise.
    pub open spec fn spec_route(self, left_empty: bool) -> Option<Side> {
        if self.expected >= 2 {
            spec_multi_drop_side(self.index)
        } else if left_empty {
            Some(Side::Left)
        } else {
            Some(Side::Right)
        }
    }

    /// The state after one more file of the drop has been routed.
    pub open spec fn after_route(self) -> DropState {
        DropState { index: (self.index + 1) as usize, ..self }
    }

    /// Takes in one frame's hover count: a gesture that starts hovering
    /// restarts the routing index, and while files hover their number is
    /// remembered as the size of the drop.
    pub fn observe_hover(&mut self, hovering_count: usize)
        ensures
            *final(self) == old(self).after_hover(hovering_count),
    {
        if hovering_count > 0 {
            if !self.was_hovering {
                self.index = 0;
            }
            self.expected = hovering_count;
        }
        self.was_hovering = hovering_count > 0;
    }
}

impl Default for DropState {
    fn default() -> (d: Self)
        ensures
            !d.was_hovering,
            d.expected == 0,
            d.index == 0,
    {
        DropState::new()
    }
}

/// Ids handed out one after another increase: the id a call returns is
/// smaller than the id the next call returns, unless the counter was at
/// `u64::MAX` and wraps to 0.
pub proof fn law_next_image_id_increases(next: u64)
    requires
        next < u64::MAX,
    ensures
        successor_id(next) > next,
{
}

/// The counter's value after `k` calls, starting from `start`.
pub open spec fn ids_after(start: u64, k: nat) -> u64
    decreases k,
{
    if k == 0 {
        start
    } else {
        successor_id(ids_after(start, (k - 1) as nat))
    }
}

/// On a counter that starts at 0, the counter holds `k` after `k` calls,
/// so the `k`-th call returns `k - 1`: ids count 0, 1, 2, ... (up to
/// `u64::MAX` calls).
pub proof fn law_ids_count_from_zero(k: nat)
    requires
        k <= u64::MAX,
    ensures
        ids_after(0, k) == k,
    decreases k,
{
    if k > 0 {
        law_ids_count_from_zero((k - 1) as nat);
    }
}

/// On a counter that starts at 0, an id returned by an earlier call is
/// smaller than one returned by any later call (among the first
/// `u64::MAX + 1` calls): the `j`-th and `k`-th calls return
/// `ids_after(0, j - 1)` and `ids_after(0, k - 1)`.
pub proof fn law_earlier_ids_are_smaller(j: nat, k: nat)
    requires
        j < k <= u64::MAX,
    ensures
        ids_after(0, j) < ids_after(0, k),
{
    law_ids_count_from_zero(j);
    law_ids_count_from_zero(k);
}

/// An edge cache holds the texture of exactly the image it was stored for:
/// after storing a texture under `id`, `needs_recompute(id)` is false and
/// `needs_recompute` of any other id is true; an emptied cache needs
/// recomputation for every id.
pub proof fn law_edge_cache_keyed_by_image(c: EdgeCache, id: u64, other: u64)
    ensures
        (c.texture is Some && c.key == Some(id)) ==> c.holds(id),
        (c.key == Some(id) && other != id) ==> !c.holds(other),
        c.texture is None ==> !c.holds(other),
{
}

/// Starting a decode and then finishing one leaves the in-flight count
/// where it was.
pub proof fn law_begin_then_finish_restores_count(pending: usize)
    requires
        pending < usize::MAX,
    ensures
        count_after_finish((pending + 1) as usize) == pending,
{
}

/// Showing an edge map with the inverted polarity twice gives back the
/// magnitude itself.
pub proof fn law_positive_shade_is_involution(magnitude: u8)
    ensures
        EdgePolarity::Positive.spec_shade(EdgePolarity::Positive.spec_shade(magnitude)) == magnitude,
{
}

/// A drag gesture of two or more files that starts after no files were
/// hovering routes its first file to the left, its second to the right and
/// no later file anywhere, also when the files arrive in later frames after
/// the hovering has ended.
pub proof fn law_multi_drop_order(d: DropState, hovering_count: usize, left_empty: bool)
    requires
        !d.was_hovering,
        hovering_count >= 2,
    ensures
        ({
            let first = d.after_hover(hovering_count);
            let second = first.after_route().after_hover(0);
            let third = second.after_route().after_hover(0);
            &&& first.spec_route(left_empty) == Some(Side::Left)
            &&& second.spec_route(left_empty) == Some(Side::Right)
            &&& third.spec_route(left_empty) is None
            &&& third.after_route().spec_route(left_empty) is None
        }),
{
}

/// A frame in which files hover sets the size of the drop to the number
/// of hovering files, whatever earlier gestures were; a frame without
/// hovering files keeps the size and routing position of the last drop.
pub proof fn law_hover_sets_expected(d: DropState, hovering_count: usize)
    ensures
        hovering_count > 0 ==> d.after_hover(hovering_count).expected == hovering_count,
        hovering_count > 0 ==> d.after_hover(hovering_count).was_hovering,
        hovering_count == 0 ==> d.after_hover(0).expected == d.expected,
        hovering_count == 0 ==> d.after_hover(0).index == d.index,
        hovering_count == 0 ==> !d.after_hover(0).was_hovering,
{
}

/// A gesture that drags a single file is auto-routed, whatever gestures
/// came before it: its file fills the left side when that is empty, else
/// the right.
pub proof fn law_one_file_gesture_auto_routes(d: DropState, left_empty: bool)
    ensures
        d.after_hover(1).after_hover(0).spec_route(left_empty) == Some(if left_empty { Side::Left } else { Side::Right }),
        d.after_hover(1).spec_route(left_empty) == Some(if left_empty { Side::Left } else { Side::Right }),
{
}

/// A drop of a single file fills the first empty side, else the right.
pub proof fn law_single_drop_auto_routes(d: DropState, left_empty: bool)
    requires
        d.expected < 2,
    ensures
        d.spec_route(left_empty) == Some(if left_empty { Side::Left } else { Side::Right }),
{
}

} // verus!
