use image_compare::export::{color_image_to_rgba, export_filename, ExportFormat};
use image_compare::egui_api::TextureSideLimit;
use image_compare::session::{CentralView, CompareState};
use image_compare::state::{
    next_image_id, AsyncIo, DropState, EdgeCache, EdgePolarity, EdgeState, ImageIdCounter,
};
use image_compare::types::{DecodeOutcome, DecodedImage, Side};

fn decoded(side: Side, name: &str, w: usize, h: usize) -> DecodedImage {
    DecodedImage {
        side,
        name: name.to_string(),
        file_size: 1234,
        size: [w, h],
        rgba: vec![200u8; w * h * 4],
    }
}

#[test]
fn image_ids_count_up() {
    let mut c = ImageIdCounter::new();
    assert_eq!(next_image_id(&mut c), 0);
    assert_eq!(next_image_id(&mut c), 1);
    assert_eq!(next_image_id(&mut c), 2);
    let mut top = ImageIdCounter { next: u64::MAX };
    assert_eq!(next_image_id(&mut top), u64::MAX);
    assert_eq!(next_image_id(&mut top), 0);
}

#[test]
fn edge_polarity_shades() {
    assert_eq!(EdgePolarity::Negative.shade(17), 17);
    assert_eq!(EdgePolarity::Positive.shade(17), 238);
    assert_eq!(EdgePolarity::Positive.shade(EdgePolarity::Positive.shade(99)), 99);
    assert_eq!(EdgePolarity::default(), EdgePolarity::Negative);
}

#[test]
fn empty_edge_cache_needs_recompute() {
    let c = EdgeCache::default();
    assert!(c.needs_recompute(0));
    let e = EdgeState::default();
    assert!(!e.enabled);
    assert!(e.cache(Side::Left).needs_recompute(5));
    assert!(e.cache(Side::Right).key.is_none());
}

#[test]
fn pending_loads_never_go_negative() {
    let mut io = AsyncIo::default();
    assert_eq!(io.pending_loads, 0);
    io.finish_load();
    assert_eq!(io.pending_loads, 0);
    io.begin_load();
    io.begin_load();
    assert_eq!(io.pending_loads, 2);
    io.finish_load();
    assert_eq!(io.pending_loads, 1);
}

#[test]
fn new_gesture_resets_routing_index() {
    let mut d = DropState::default();
    d.index = 5;
    d.observe_hover(3);
    assert!(d.was_hovering);
    assert_eq!(d.expected, 3);
    assert_eq!(d.index, 0);
    d.index = 1;
    d.observe_hover(3);
    assert_eq!(d.index, 1);
    d.observe_hover(0);
    assert!(!d.was_hovering);
    assert_eq!(d.expected, 3);
    assert_eq!(d.index, 1);
}

#[test]
fn multi_file_drop_goes_left_then_right() {
    let mut st = CompareState::new();
    st.drop.observe_hover(3);
    st.drop.observe_hover(0);
    assert_eq!(st.route_dropped(), Some(Side::Left));
    assert_eq!(st.route_dropped(), Some(Side::Right));
    assert_eq!(st.route_dropped(), None);
    assert_eq!(st.drop.index, 3);
}

#[test]
fn single_file_drop_auto_routes() {
    let ctx = egui::Context::default();
    let mut st = CompareState::default();
    st.drop.observe_hover(1);
    assert_eq!(st.route_dropped(), Some(Side::Left));
    st.apply_decoded(&ctx, DecodeOutcome::Decoded(decoded(Side::Left, "a.png", 2, 2)));
    assert_eq!(st.route_dropped(), Some(Side::Right));
    assert_eq!(st.auto_route_side(), Side::Right);
}

#[test]
fn picked_files_keep_their_side() {
    let ctx = egui::Context::default();
    let mut st = CompareState::new();
    assert_eq!(st.side_for_picked(Some(Side::Right)), Side::Right);
    assert_eq!(st.side_for_picked(None), Side::Left);
    st.apply_decoded(&ctx, DecodeOutcome::Decoded(decoded(Side::Left, "a.png", 1, 1)));
    assert_eq!(st.side_for_picked(None), Side::Right);
    assert_eq!(st.side_for_picked(Some(Side::Left)), Side::Left);
}

#[test]
fn decoded_images_land_on_their_side() {
    let ctx = egui::Context::default();
    let mut st = CompareState::new();
    st.io.begin_load();
    st.io.begin_load();
    assert!(st.apply_decoded(&ctx, DecodeOutcome::Decoded(decoded(Side::Right, "b.jpg", 3, 2))));
    assert_eq!(st.io.pending_loads, 1);
    let right = st.image(Side::Right).unwrap();
    assert_eq!(right.name, "b.jpg");
    assert_eq!(right.size, [3, 2]);
    assert_eq!(right.file_size, 1234);
    assert_eq!(right.rgba.len(), 24);
    assert_eq!(right.id, 0);
    assert!(st.image(Side::Left).is_none());
    assert!(!st.apply_decoded(&ctx, DecodeOutcome::Failed));
    assert_eq!(st.io.pending_loads, 0);
    assert!(st.apply_decoded(&ctx, DecodeOutcome::Decoded(decoded(Side::Left, "a.png", 1, 1))));
    assert_eq!(st.image(Side::Left).unwrap().id, 1);
    assert_eq!(st.io.pending_loads, 0);
}

#[test]
fn edge_cache_follows_the_image() {
    let ctx = egui::Context::default();
    let mut st = CompareState::new();
    assert!(!st.needs_edge_compute(Side::Left));
    st.apply_decoded(&ctx, DecodeOutcome::Decoded(decoded(Side::Left, "a.png", 2, 2)));
    assert!(st.needs_edge_compute(Side::Left));
    let edge = egui::ColorImage::from_rgba_unmultiplied([2, 2], &[0u8; 16]);
    assert!(st.store_edge(&ctx, Side::Left, edge));
    assert!(!st.needs_edge_compute(Side::Left));
    assert_eq!(st.edges.cache(Side::Left).key, Some(0));
    // A new image on the same side invalidates the cached edges.
    st.apply_decoded(&ctx, DecodeOutcome::Decoded(decoded(Side::Left, "c.png", 2, 2)));
    assert!(st.edges.cache(Side::Left).texture.is_none());
    assert!(st.needs_edge_compute(Side::Left));
    // A side whose image is gone loses its cached edges.
    st.edges.cache_mut(Side::Right).key = Some(7);
    assert!(!st.needs_edge_compute(Side::Right));
    assert!(st.edges.cache(Side::Right).key.is_none());
}

#[test]
fn clear_all_empties_both_sides() {
    let ctx = egui::Context::default();
    let mut st = CompareState::new();
    st.edges.enabled = true;
    st.apply_decoded(&ctx, DecodeOutcome::Decoded(decoded(Side::Left, "a.png", 1, 1)));
    st.apply_decoded(&ctx, DecodeOutcome::Decoded(decoded(Side::Right, "b.png", 1, 1)));
    st.clear_all();
    assert!(st.image(Side::Left).is_none());
    assert!(st.image(Side::Right).is_none());
    assert!(!st.edges.enabled);
    assert_eq!(st.ids.next, 2);
    assert_eq!(st.auto_route_side(), Side::Left);
}

#[test]
fn export_filename_combines_both_stems() {
    let ctx = egui::Context::default();
    let mut st = CompareState::new();
    let limit = TextureSideLimit::of(&ctx);
    let left = st
        .build_loaded_image(&ctx, "shots/My Photo.PNG", 10, [1, 1], vec![0u8; 4], &limit)
        .unwrap();
    let right = st
        .build_loaded_image(&ctx, "edited (v2).jpeg", 10, [1, 1], vec![0u8; 4], &limit)
        .unwrap();
    assert_eq!(
        export_filename(&left, &right, ExportFormat::Webp),
        "compare-My-Photo-vs-edited-v2.webp"
    );
    assert_eq!(left.id, 0);
    assert_eq!(right.id, 1);
}

#[test]
fn color_image_round_trips_opaque_pixels() {
    let bytes: Vec<u8> = vec![1, 2, 3, 255, 40, 50, 60, 255, 0, 0, 0, 255];
    let img = egui::ColorImage::from_rgba_unmultiplied([3, 1], &bytes);
    assert_eq!(color_image_to_rgba(&img), bytes);
}

#[test]
fn color_image_pixels_are_premultiplied() {
    let bytes: Vec<u8> = vec![200, 100, 50, 128, 9, 9, 9, 0];
    let img = egui::ColorImage::from_rgba_unmultiplied([2, 1], &bytes);
    assert_eq!(color_image_to_rgba(&img), vec![100, 50, 25, 128, 0, 0, 0, 0]);
}

#[test]
fn images_beyond_the_texture_limit_are_refused() {
    let ctx = egui::Context::default();
    let limit = TextureSideLimit::of(&ctx);
    assert_eq!(limit.side(), 2048);
    let mut st = CompareState::new();
    let wide = limit.side() + 1;
    st.io.begin_load();
    let placed = st.apply_decoded(&ctx, DecodeOutcome::Decoded(decoded(Side::Left, "wide.png", wide, 1)));
    assert!(!placed);
    assert!(st.image(Side::Left).is_none());
    assert_eq!(st.io.pending_loads, 0);
    assert_eq!(st.ids.next, 0);
    assert!(st.build_loaded_image(&ctx, "tall.png", 0, [1, wide], vec![0u8; wide * 4], &limit).is_none());
    assert!(st.apply_decoded(&ctx, DecodeOutcome::Decoded(decoded(Side::Left, "a.png", 2, 2))));
    let big_edge = egui::ColorImage::from_rgba_unmultiplied([wide, 1], &vec![0u8; wide * 4]);
    assert!(!st.store_edge(&ctx, Side::Left, big_edge));
    assert!(st.needs_edge_compute(Side::Left));
}

#[test]
fn decoded_images_get_new_ids() {
    let ctx = egui::Context::default();
    let mut st = CompareState::new();
    for k in 0..5u64 {
        let side = if k % 2 == 0 { Side::Left } else { Side::Right };
        st.apply_decoded(&ctx, DecodeOutcome::Decoded(decoded(side, "x.png", 1, 1)));
        assert_eq!(st.image(side).unwrap().id, k);
    }
    assert_ne!(st.image(Side::Left).unwrap().id, st.image(Side::Right).unwrap().id);
}

#[test]
fn central_view_and_drop_zone_title() {
    let ctx = egui::Context::default();
    let mut st = CompareState::new();
    assert_eq!(st.central_view(), CentralView::DropZone);
    assert_eq!(st.drop_zone_title(), "First image");
    st.io.begin_load();
    assert_eq!(st.central_view(), CentralView::Loading);
    st.apply_decoded(&ctx, DecodeOutcome::Decoded(decoded(Side::Left, "a.png", 1, 1)));
    assert_eq!(st.central_view(), CentralView::DropZone);
    assert_eq!(st.drop_zone_title(), "Second image");
    st.apply_decoded(&ctx, DecodeOutcome::Decoded(decoded(Side::Right, "b.png", 1, 1)));
    assert_eq!(st.central_view(), CentralView::Comparison);
}

#[test]
fn channels_deliver_between_their_ends() {
    let io = AsyncIo::new();
    io.file_tx
        .send(image_compare::types::LoadedFile { side: None, name: "f".to_string(), bytes: vec![1] })
        .unwrap();
    let got = io.file_rx.try_recv().unwrap();
    assert_eq!(got.name, "f");
    io.decoded_tx.send(DecodeOutcome::Failed).unwrap();
    assert!(matches!(io.decoded_rx.try_recv().unwrap(), DecodeOutcome::Failed));
}
