//! End-to-end behaviour of the wallpaper library, with a plain integer or a
//! byte buffer standing in for the host's GPU texture handle.

use smithay_wallpaper::{
    decode, next_id, DecodedImage, DrawPlan, Extent, IdRegistry, LoadError, LoadMode, Rect,
    UploadError, WallpaperState,
};

fn solid_image(width: u32, height: u32, rgba: [u8; 4]) -> DecodedImage {
    let mut pixels = Vec::new();
    for _ in 0..(width * height) {
        pixels.extend_from_slice(&rgba);
    }
    DecodedImage::from_rgba8(width, height, pixels).expect("buffer holds 4 bytes per pixel")
}

fn solid_png(width: u32, height: u32, rgba: [u8; 4]) -> Vec<u8> {
    let buf = image::RgbaImage::from_pixel(width, height, image::Rgba(rgba));
    let mut bytes = Vec::new();
    image::DynamicImage::ImageRgba8(buf)
        .write_to(&mut std::io::Cursor::new(&mut bytes), image::ImageFormat::Png)
        .expect("png encoding succeeds");
    bytes
}

#[test]
fn instance_ids_are_pairwise_distinct() {
    let mut reg = IdRegistry::new();
    let mut ids = Vec::new();
    for _ in 0..64 {
        ids.push(next_id(&mut reg));
    }
    for i in 0..ids.len() {
        for j in 0..ids.len() {
            if i != j {
                assert_ne!(ids[i], ids[j]);
            }
        }
    }
    assert_eq!(reg.len(), 64);
}

#[test]
fn concurrently_constructed_states_have_distinct_ids() {
    let mut reg = IdRegistry::new();
    let mut a: WallpaperState<u32> = WallpaperState::new(&mut reg, LoadMode::Deferred);
    let mut b: WallpaperState<u32> = WallpaperState::new(&mut reg, LoadMode::Deferred);
    let mut c: WallpaperState<u32> = WallpaperState::new(&mut reg, LoadMode::Deferred);
    // ids are observable through the frames the states produce
    let area = Rect { x: 0, y: 0, w: 1, h: 1 };
    let size = Extent { w: 1, h: 1 };
    let ia = a.run(None, area, size, 1).id();
    let ib = b.run(None, area, size, 1).id();
    let ic = c.run(None, area, size, 1).id();
    assert_ne!(ia, ib);
    assert_ne!(ib, ic);
    assert_ne!(ia, ic);
}

#[test]
fn draw_without_load_is_noop_success() {
    let mut reg = IdRegistry::new();
    let mut st: WallpaperState<u32> = WallpaperState::new(&mut reg, LoadMode::Deferred);
    let frame = st.run(None, Rect { x: 0, y: 0, w: 640, h: 480 }, Extent { w: 640, h: 480 }, 1);
    assert!(!frame.needs_upload(st.texture_slot()));
    let plan = frame.draw(st.texture_slot(), None);
    assert_eq!(plan, Ok(DrawPlan::Skip));
    assert!(st.texture_slot().texture().is_none());
}

#[test]
fn second_draw_is_cache_hit() {
    let mut reg = IdRegistry::new();
    let mut st: WallpaperState<u32> = WallpaperState::new(&mut reg, LoadMode::Deferred);
    let ticket = st.set();
    st.check(ticket, Ok(solid_image(4, 4, [9, 9, 9, 255])));
    let area = Rect { x: 0, y: 0, w: 4, h: 4 };
    let size = Extent { w: 4, h: 4 };
    let mut uploads = 0;

    for _ in 0..2 {
        let frame = st.run(None, area, size, 1);
        let uploaded = if frame.needs_upload(st.texture_slot()) {
            uploads += 1;
            Some(7u32)
        } else {
            None
        };
        let plan = frame.draw(st.texture_slot(), uploaded);
        assert_eq!(plan, Ok(DrawPlan::Blit { dest: Rect { x: 0, y: 0, w: 4, h: 4 } }));
    }
    assert_eq!(uploads, 1);
    assert_eq!(st.texture_slot().texture(), Some(&7u32));
}

#[test]
fn successful_load_draws_with_one_upload() {
    let mut reg = IdRegistry::new();
    let mut st: WallpaperState<u32> = WallpaperState::new(&mut reg, LoadMode::Deferred);
    let ticket = st.set();
    let bytes = solid_png(5, 3, [1, 2, 3, 255]);
    // poll until done: the decode completes and is delivered with its ticket
    let frame = st.run(
        Some((ticket, decode(&bytes))),
        Rect { x: 0, y: 0, w: 5, h: 3 },
        Extent { w: 5, h: 3 },
        1,
    );
    assert!(frame.needs_upload(st.texture_slot()));
    let plan = frame.draw(st.texture_slot(), Some(11u32));
    assert_eq!(plan, Ok(DrawPlan::Blit { dest: Rect { x: 0, y: 0, w: 5, h: 3 } }));
    assert!(!frame.needs_upload(st.texture_slot()));
}

#[test]
fn failed_load_keeps_previous_image() {
    let mut reg = IdRegistry::new();
    let mut st: WallpaperState<u32> = WallpaperState::new(&mut reg, LoadMode::Deferred);
    let ticket = st.set();
    st.check(ticket, Ok(solid_image(2, 2, [5, 6, 7, 255])));
    let area = Rect { x: 0, y: 0, w: 2, h: 2 };
    let size = Extent { w: 2, h: 2 };
    let first = st.run(None, area, size, 1);
    let plan = first.draw(st.texture_slot(), Some(3u32));
    assert_eq!(plan, Ok(DrawPlan::Blit { dest: Rect { x: 0, y: 0, w: 2, h: 2 } }));

    // a load of an unreadable path completes with an error
    let bad_ticket = st.set();
    let frame = st.run(Some((bad_ticket, Err(LoadError))), area, size, 1);
    // the previously displayed image is still drawn, from the cache,
    // and no upload error is raised for a bitmap never actually decoded
    assert_eq!(frame.generation(), first.generation());
    assert!(!frame.needs_upload(st.texture_slot()));
    let plan = frame.draw(st.texture_slot(), None);
    assert_eq!(plan, Ok(DrawPlan::Blit { dest: Rect { x: 0, y: 0, w: 2, h: 2 } }));
    assert_eq!(st.texture_slot().texture(), Some(&3u32));
}

#[test]
fn last_request_wins_in_delivery_order() {
    let mut reg = IdRegistry::new();
    let mut st: WallpaperState<u32> = WallpaperState::new(&mut reg, LoadMode::Deferred);
    let image_a = solid_image(1, 1, [10, 0, 0, 255]);
    let image_b = solid_image(1, 1, [0, 20, 0, 255]);
    let ticket_a = st.set();
    let ticket_b = st.set();
    // A's decode finishes first; it was superseded and is discarded
    st.check(ticket_a, Ok(image_a));
    let area = Rect { x: 0, y: 0, w: 1, h: 1 };
    let size = Extent { w: 1, h: 1 };
    let frame = st.run(None, area, size, 1);
    assert!(frame.upload_source().is_none());
    // B's decode finishes: its result becomes current
    st.check(ticket_b, Ok(image_b));
    let frame = st.run(None, area, size, 1);
    let shown = frame.upload_source().expect("B's image is current");
    assert_eq!(shown.pixels(), &vec![0u8, 20, 0, 255]);
}

#[test]
fn last_request_wins_out_of_delivery_order() {
    let mut reg = IdRegistry::new();
    let mut st: WallpaperState<u32> = WallpaperState::new(&mut reg, LoadMode::Deferred);
    let image_a = solid_image(1, 1, [10, 0, 0, 255]);
    let image_b = solid_image(1, 1, [0, 20, 0, 255]);
    let ticket_a = st.set();
    let ticket_b = st.set();
    // B's decode finishes first and becomes current
    st.check(ticket_b, Ok(image_b));
    // A's decode finishes last; it is stale and discarded, B's image stays
    st.check(ticket_a, Ok(image_a));
    let frame = st.run(
        None,
        Rect { x: 0, y: 0, w: 1, h: 1 },
        Extent { w: 1, h: 1 },
        1,
    );
    let shown = frame.upload_source().expect("B's image is current");
    assert_eq!(shown.pixels(), &vec![0u8, 20, 0, 255]);
}

#[test]
fn damage_is_reported_exactly_on_fresh_images() {
    let mut reg = IdRegistry::new();
    let mut st: WallpaperState<u32> = WallpaperState::new(&mut reg, LoadMode::Deferred);
    let area = Rect { x: 0, y: 0, w: 8, h: 8 };
    let size = Extent { w: 8, h: 8 };

    // nothing loaded: nothing to repaint
    let frame = st.run(None, area, size, 1);
    assert!(frame.accumulated_damage(None).is_empty());
    let seen = frame.generation();

    // a new image becomes current: full damage on exactly that frame
    let ticket = st.set();
    let frame = st.run(Some((ticket, Ok(solid_image(8, 8, [1, 1, 1, 255])))), area, size, 1);
    assert_eq!(frame.accumulated_damage(Some(seen)), vec![area]);
    let seen = frame.generation();

    // two consecutive frames reference the same generation: empty damage
    let frame = st.run(None, area, size, 1);
    assert_eq!(frame.generation(), seen);
    assert!(frame.accumulated_damage(Some(seen)).is_empty());
}

#[test]
fn failed_upload_is_retried_on_next_draw() {
    let mut reg = IdRegistry::new();
    let mut st: WallpaperState<u32> = WallpaperState::new(&mut reg, LoadMode::Deferred);
    let ticket = st.set();
    st.check(ticket, Ok(solid_image(2, 2, [8, 8, 8, 255])));
    let frame = st.run(None, Rect { x: 0, y: 0, w: 2, h: 2 }, Extent { w: 2, h: 2 }, 1);
    // the GPU upload fails: the slot stays empty and the error is propagated
    assert!(frame.needs_upload(st.texture_slot()));
    let plan = frame.draw(st.texture_slot(), None);
    assert_eq!(plan, Err(UploadError));
    assert!(st.texture_slot().texture().is_none());
    // the next draw retries and succeeds
    assert!(frame.needs_upload(st.texture_slot()));
    let plan = frame.draw(st.texture_slot(), Some(2u32));
    assert_eq!(plan, Ok(DrawPlan::Blit { dest: Rect { x: 0, y: 0, w: 2, h: 2 } }));
}

#[test]
fn frame_exposes_geometry_scale_and_z_index() {
    let mut reg = IdRegistry::new();
    let mut st: WallpaperState<u32> = WallpaperState::new(&mut reg, LoadMode::Deferred);
    let logical = Rect { x: 3, y: -2, w: 10, h: 20 };
    let size = Extent { w: 20, h: 40 };
    let frame = st.run(None, logical, size, 2);
    assert_eq!(frame.geometry(), logical);
    assert_eq!(frame.area(), Rect { x: 6, y: -4, w: 20, h: 40 });
    assert_eq!(frame.size(), size);
    assert_eq!(frame.z_index(), 0);
}
