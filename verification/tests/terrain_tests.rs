//! Tests of the terrain: construction, picking, cursor placement, sculpt
//! strokes through the cursor, and export.

use terrain_editor::ray::{Ray, Vec3i};
use terrain_editor::terrain::{CursorPos, HeightmapSource, Terrain};
use terrain_editor::LoadError;

/// Encodes 16-bit grayscale pixels as an in-memory PNG.
fn luma16_png(w: u32, h: u32, pixels: Vec<u16>) -> Vec<u8> {
    let img = image::ImageBuffer::<image::Luma<u16>, Vec<u16>>::from_raw(w, h, pixels)
        .expect("pixel buffer too small");
    let mut buf = std::io::Cursor::new(Vec::new());
    image::DynamicImage::ImageLuma16(img)
        .write_to(&mut buf, image::ImageFormat::Png)
        .expect("png encode failed");
    buf.into_inner()
}

fn full_brush() -> Vec<u8> {
    luma16_png(1, 1, vec![60000])
}

fn flat_terrain() -> Terrain {
    Terrain::new(0, 0, HeightmapSource::Flat(1024), &full_brush(), 100_000)
        .expect("flat terrain")
}

fn ray(ox: i64, oy: i64, oz: i64, dx: i64, dy: i64, dz: i64) -> Ray {
    Ray { origin: Vec3i { x: ox, y: oy, z: oz }, dir: Vec3i { x: dx, y: dy, z: dz } }
}

#[test]
fn new_flat_starts_hidden_and_level() {
    let t = flat_terrain();
    assert_eq!(t.cursor(), CursorPos::Hidden);
    assert_eq!(t.tess_level(), 11_000);
    assert_eq!(t.size(), 1_024_000);
    assert_eq!(t.instance_count(), 64 * 64);
    assert_eq!(t.center(), (0, 0));
    assert_eq!(t.max_height(), 200_000);
    assert_eq!(t.num_patches(), 64);
    assert_eq!(t.patch_size(), 16_000);
    let aabb = t.aabb();
    assert_eq!((aabb.min.x, aabb.min.y, aabb.min.z), (-512_000, 0, -512_000));
    assert_eq!((aabb.max.x, aabb.max.y, aabb.max.z), (512_000, 200_000, 512_000));
    let (bytes, side) = t.get_heightmap_pixels();
    assert_eq!(side, 1024);
    assert_eq!(bytes.len(), 1024 * 1024 * 2);
    assert!(bytes.iter().all(|&b| b == 0));
}

#[test]
fn new_from_image_takes_pixels() {
    let pixels: Vec<u16> = (0..1024u32 * 1024).map(|i| (i % 60000) as u16).collect();
    let png = luma16_png(1024, 1024, pixels.clone());
    let t = Terrain::new(0, 0, HeightmapSource::FromImage(png), &full_brush(), 100_000)
        .expect("terrain from image");
    let (bytes, side) = t.get_heightmap_pixels();
    assert_eq!(side, 1024);
    assert_eq!(bytes[2 * 5000], (pixels[5000] % 256) as u8);
    assert_eq!(bytes[2 * 5000 + 1], (pixels[5000] / 256) as u8);
}

#[test]
fn new_propagates_heightmap_error_first() {
    let garbage = vec![9u8; 10];
    let e = Terrain::new(0, 0, HeightmapSource::Flat(999), &garbage, 100_000).unwrap_err();
    assert_eq!(e, LoadError::UnsupportedSize);
    let e = Terrain::new(0, 0, HeightmapSource::FromImage(vec![1u8, 2]), &full_brush(), 100_000)
        .unwrap_err();
    assert_eq!(e, LoadError::Decode);
}

#[test]
fn new_propagates_brush_error() {
    let garbage = vec![9u8; 10];
    let e = Terrain::new(0, 0, HeightmapSource::Flat(1024), &garbage, 100_000).unwrap_err();
    assert_eq!(e, LoadError::Decode);
    let non_square = luma16_png(4, 2, vec![0u16; 8]);
    let e = Terrain::new(0, 0, HeightmapSource::Flat(1024), &non_square, 100_000).unwrap_err();
    assert_eq!(e, LoadError::NotSquare);
}

/// A ray that misses the box entirely hides the cursor and reports a miss.
#[test]
fn move_cursor_miss_hides() {
    let mut t = flat_terrain();
    // First place the cursor somewhere so the miss visibly hides it.
    assert!(t.move_cursor(&ray(0, 100_000, 0, 0, -1, 0)));
    assert_ne!(t.cursor(), CursorPos::Hidden);
    // Parallel to the box, far outside it on x.
    assert!(!t.move_cursor(&ray(1_000_000, 100_000, 0, 0, 0, 1)));
    assert_eq!(t.cursor(), CursorPos::Hidden);
    // Pointing up, away from the box, from above it.
    assert!(!t.move_cursor(&ray(0, 300_000, 0, 0, 1, 0)));
    assert_eq!(t.cursor(), CursorPos::Hidden);
}

/// A ray that clips only a side face, well above the floor plane, is
/// rejected: the hit's height sits above the floor epsilon.
#[test]
fn move_cursor_side_face_hit_rejected() {
    let mut t = flat_terrain();
    // Travels horizontally at height 100 units and crosses the box's side.
    assert!(!t.move_cursor(&ray(600_000, 100_000, 0, -1, 0, 0)));
    assert_eq!(t.cursor(), CursorPos::Hidden);
}

/// A ray straight down onto the floor picks the point under it.
#[test]
fn move_cursor_floor_hit_places_cursor() {
    let mut t = flat_terrain();
    assert!(t.move_cursor(&ray(123_000, 50_000, -45_000, 0, -1, 0)));
    assert_eq!(t.cursor(), CursorPos::At(123_000, -45_000));
}

/// A slanted ray picks the exact rational floor point, rounded down.
#[test]
fn move_cursor_slanted_hit_rounds_down() {
    let mut t = flat_terrain();
    // From (0, 3, 0) along (1, -2, 0): the floor hit is at t = 3/2, so the
    // exact point is (1.5, 0, 0) and the stored cursor rounds x down to 1.
    assert!(t.move_cursor(&ray(0, 3, 0, 1, -2, 0)));
    assert_eq!(t.cursor(), CursorPos::At(1, 0));
}

/// A successful pick is always clamped into the box's x/z range.
#[test]
fn move_cursor_hit_is_clamped_in_bounds() {
    let mut t = flat_terrain();
    let rays = [
        ray(511_999, 1, 511_999, 1, -1, 1),
        ray(-511_999, 1, -511_999, -1, -1, -1),
        ray(0, 200_000, 0, 1, -1, 0),
        ray(-600_000, 10, 0, 1, 0, 0),
    ];
    for r in &rays {
        if t.move_cursor(r) {
            match t.cursor() {
                CursorPos::At(x, z) => {
                    assert!((-512_000..=512_000).contains(&x));
                    assert!((-512_000..=512_000).contains(&z));
                }
                CursorPos::Hidden => panic!("hit reported but cursor hidden"),
            }
        } else {
            assert_eq!(t.cursor(), CursorPos::Hidden);
        }
    }
}

/// The floor test admits a far hit up to one milli-unit above the bottom
/// plane and rejects anything higher.
#[test]
fn move_cursor_floor_epsilon_boundary() {
    let mut t = flat_terrain();
    // The x slab caps the far time at 1, so the hit sits at height 1:
    // exactly the epsilon, accepted.
    assert!(t.move_cursor(&ray(511_999, 2, 0, 1, -1, 0)));
    assert_eq!(t.cursor(), CursorPos::At(512_000, 0));
    // Same ray one milli-unit higher: the hit sits at height 2, rejected.
    assert!(!t.move_cursor(&ray(511_999, 3, 0, 1, -1, 0)));
    assert_eq!(t.cursor(), CursorPos::Hidden);
}

#[test]
fn hide_cursor_hides() {
    let mut t = flat_terrain();
    assert!(t.move_cursor(&ray(0, 100_000, 0, 0, -1, 0)));
    t.hide_cursor();
    assert_eq!(t.cursor(), CursorPos::Hidden);
}

/// Shaping with a hidden cursor sculpts nothing; shaping under a cursor
/// raises the texels there, and an equal lower stroke restores them.
#[test]
fn shape_terrain_sculpts_under_cursor() {
    let mut t = flat_terrain();
    let (flat, _) = t.get_heightmap_pixels();

    t.shape_terrain(500, true);
    assert_eq!(t.get_heightmap_pixels().0, flat, "hidden cursor must not sculpt");

    assert!(t.move_cursor(&ray(0, 100_000, 0, 0, -1, 0)));
    t.shape_terrain(0, true);
    assert_eq!(t.get_heightmap_pixels().0, flat, "zero time step must not sculpt");

    t.shape_terrain(500, true);
    let (raised, _) = t.get_heightmap_pixels();
    assert_ne!(raised, flat);
    // Cursor at the centre: texel (512, 512) gets 60000·500/1000 = 30000.
    let i: usize = 512 * 1024 + 512;
    assert_eq!(raised[2 * i], (30000 % 256) as u8);
    assert_eq!(raised[2 * i + 1], (30000 / 256) as u8);

    t.shape_terrain(500, false);
    assert_eq!(t.get_heightmap_pixels().0, flat, "equal lower stroke must restore");
}

#[test]
fn set_tess_level_keeps_the_rest() {
    let mut t = flat_terrain();
    let (before, _) = t.get_heightmap_pixels();
    t.set_tess_level(7_000);
    assert_eq!(t.tess_level(), 7_000);
    assert_eq!(t.cursor(), CursorPos::Hidden);
    assert_eq!(t.get_heightmap_pixels().0, before);
}
