//! Tests of the heightmap store and the brush: creation, loading errors,
//! sculpt blending, and the export readback.

use terrain_editor::brush::Brush;
use terrain_editor::heightmap::Heightmap;
use terrain_editor::LoadError;

/// Encodes 16-bit grayscale pixels as an in-memory PNG.
fn luma16_png(w: u32, h: u32, pixels: Vec<u16>) -> Vec<u8> {
    let img = image::ImageBuffer::<image::Luma<u16>, Vec<u16>>::from_raw(w, h, pixels)
        .expect("pixel buffer too small");
    let mut buf = std::io::Cursor::new(Vec::new());
    image::DynamicImage::ImageLuma16(img)
        .write_to(&mut buf, image::ImageFormat::Png)
        .expect("png encode failed");
    buf.into_inner()
}

/// Encodes 8-bit grayscale pixels as an in-memory TGA, which carries no
/// format signature.
fn luma8_tga(w: u32, h: u32, pixels: Vec<u8>) -> Vec<u8> {
    let img = image::ImageBuffer::<image::Luma<u8>, Vec<u8>>::from_raw(w, h, pixels)
        .expect("pixel buffer too small");
    let mut buf = std::io::Cursor::new(Vec::new());
    image::DynamicImage::ImageLuma8(img)
        .write_to(&mut buf, image::ImageFormat::Tga)
        .expect("tga encode failed");
    buf.into_inner()
}

#[test]
fn flat_supported_sizes_are_zero() {
    for &size in &[1024usize, 2048, 4096] {
        let hm = Heightmap::flat(size).expect("supported size");
        let (bytes, side) = hm.read_back();
        assert_eq!(side, size);
        assert_eq!(bytes.len(), size * size * 2);
        assert!(bytes.iter().all(|&b| b == 0));
    }
}

#[test]
fn flat_rejects_unsupported_sizes() {
    for &size in &[0usize, 1, 512, 1000, 1025, 8192] {
        assert_eq!(Heightmap::flat(size).unwrap_err(), LoadError::UnsupportedSize);
    }
}

#[test]
fn from_image_round_trips_pixels() {
    let mut pixels: Vec<u16> = vec![0; 1024 * 1024];
    for (i, p) in pixels.iter_mut().enumerate() {
        *p = (i % 65536) as u16;
    }
    let png = luma16_png(1024, 1024, pixels.clone());
    let hm = Heightmap::from_image(&png).expect("valid heightmap image");
    let (bytes, side) = hm.read_back();
    assert_eq!(side, 1024);
    assert_eq!(bytes.len(), 1024 * 1024 * 2);
    for (i, &p) in pixels.iter().enumerate() {
        assert_eq!(bytes[2 * i], (p % 256) as u8);
        assert_eq!(bytes[2 * i + 1], (p / 256) as u8);
    }
}

#[test]
fn from_image_rejects_non_square() {
    let png = luma16_png(1024, 2048, vec![0u16; 1024 * 2048]);
    assert_eq!(Heightmap::from_image(&png).unwrap_err(), LoadError::NotSquare);
}

#[test]
fn from_image_rejects_unsupported_size() {
    let png = luma16_png(512, 512, vec![0u16; 512 * 512]);
    assert_eq!(Heightmap::from_image(&png).unwrap_err(), LoadError::UnsupportedSize);
}

#[test]
fn from_image_rejects_unreadable_bytes() {
    let garbage = vec![7u8; 64];
    assert_eq!(Heightmap::from_image(&garbage).unwrap_err(), LoadError::Decode);
}

#[test]
fn brush_rejects_non_square() {
    let png = luma16_png(4, 2, vec![0u16; 8]);
    assert_eq!(Brush::new(&png, 100_000).unwrap_err(), LoadError::NotSquare);
}

#[test]
fn brush_rejects_unreadable_bytes() {
    let garbage = vec![1u8, 2, 3];
    assert_eq!(Brush::new(&garbage, 100_000).unwrap_err(), LoadError::Decode);
}

#[test]
fn brush_keeps_size_and_texels() {
    let png = luma16_png(2, 2, vec![10, 20, 30, 40]);
    let b = Brush::new(&png, 100_000).expect("valid brush");
    assert_eq!(b.world_size(), 100_000);
    assert_eq!(b.texture_side(), 2);
    assert_eq!(b.texel_count(), 4);
    assert_eq!(b.sample(0, 0), 10);
    assert_eq!(b.sample(0, 1), 20);
    assert_eq!(b.sample(1, 0), 30);
    assert_eq!(b.sample(1, 1), 40);
}

/// TGA has no signature, so it is the decoder's fallback format: a TGA brush
/// still loads, with 8-bit samples widened to the 16-bit range.
#[test]
fn brush_loads_from_tga() {
    let tga = luma8_tga(2, 2, vec![0, 255, 0, 255]);
    let b = Brush::new(&tga, 100_000).expect("tga brush");
    assert_eq!(b.texture_side(), 2);
    assert_eq!(b.sample(0, 0), 0);
    assert_eq!(b.sample(0, 1), 65535);
    assert_eq!(b.sample(1, 0), 0);
    assert_eq!(b.sample(1, 1), 65535);
}

/// A height field stored as TGA loads through the same fallback.
#[test]
fn from_image_loads_tga() {
    let tga = luma8_tga(1024, 1024, vec![0u8; 1024 * 1024]);
    let hm = Heightmap::from_image(&tga).expect("tga heightmap");
    let (bytes, side) = hm.read_back();
    assert_eq!(side, 1024);
    assert_eq!(bytes.len(), 1024 * 1024 * 2);
    assert!(bytes.iter().all(|&b| b == 0));
}

/// A single-texel brush of full strength sculpting the centre of a flat
/// field raises exactly the texels whose centres lie under the footprint,
/// by sample × dt / 1000.
#[test]
fn sculpt_raises_footprint_exactly() {
    let mut hm = Heightmap::flat(1024).expect("flat");
    let brush = Brush::new(&luma16_png(1, 1, vec![60000]), 100_000).expect("brush");
    // Cursor at the terrain centre: offset 512000 of 1024000 milli-units.
    hm.sculpt(512_000, 512_000, &brush, 1_024_000, 1000, true);
    let (bytes, side) = hm.read_back();
    assert_eq!(side, 1024);
    let texel = |x: usize, z: usize| -> u16 {
        let i: usize = z * 1024 + x;
        (bytes[2 * i] as u16) | ((bytes[2 * i + 1] as u16) << 8)
    };
    // Footprint on one axis: |(2t+1)·1024000 − 2·1024·512000| <= 1024·100000,
    // i.e. 2t+1 in [924, 1124], i.e. t in 462..=561.
    assert_eq!(texel(512, 512), 60000);
    assert_eq!(texel(462, 462), 60000);
    assert_eq!(texel(561, 561), 60000);
    assert_eq!(texel(461, 512), 0);
    assert_eq!(texel(562, 512), 0);
    assert_eq!(texel(512, 461), 0);
    assert_eq!(texel(0, 0), 0);
    assert_eq!(texel(1023, 1023), 0);
}

/// Sculpting with a zero time step changes no texel.
#[test]
fn sculpt_zero_delta_time_changes_nothing() {
    let mut hm = Heightmap::flat(1024).expect("flat");
    let brush = Brush::new(&luma16_png(1, 1, vec![60000]), 100_000).expect("brush");
    hm.sculpt(512_000, 512_000, &brush, 1_024_000, 700, true);
    let (before, _) = hm.read_back();
    hm.sculpt(512_000, 512_000, &brush, 1_024_000, 0, true);
    hm.sculpt(512_000, 512_000, &brush, 1_024_000, 0, false);
    let (after, _) = hm.read_back();
    assert_eq!(before, after);
}

/// A raise and a lower with identical parameters cancel exactly when the
/// raise saturates no texel.
#[test]
fn sculpt_raise_then_lower_restores() {
    let mut hm = Heightmap::flat(1024).expect("flat");
    let brush = Brush::new(&luma16_png(2, 2, vec![100, 2000, 30000, 444]), 50_000)
        .expect("brush");
    let (before, _) = hm.read_back();
    hm.sculpt(300_000, 700_000, &brush, 1_024_000, 500, true);
    let (raised, _) = hm.read_back();
    assert_ne!(before, raised);
    hm.sculpt(300_000, 700_000, &brush, 1_024_000, 500, false);
    let (after, _) = hm.read_back();
    assert_eq!(before, after);
}

/// The sculpt rate is linear in the time step: one pass at 800 ms equals two
/// passes at 400 ms when nothing saturates.
#[test]
fn sculpt_rate_scales_with_delta_time() {
    let brush = Brush::new(&luma16_png(1, 1, vec![5000]), 100_000).expect("brush");
    let mut one = Heightmap::flat(1024).expect("flat");
    one.sculpt(512_000, 512_000, &brush, 1_024_000, 800, true);
    let mut two = Heightmap::flat(1024).expect("flat");
    two.sculpt(512_000, 512_000, &brush, 1_024_000, 400, true);
    two.sculpt(512_000, 512_000, &brush, 1_024_000, 400, true);
    assert_eq!(one.read_back().0, two.read_back().0);
}

/// One pass of a+b ms and passes of a then b ms agree within one height
/// unit per texel; each pass rounds its delta down, so the single pass can
/// end one unit higher.
#[test]
fn sculpt_delta_time_additive_within_one() {
    let brush = Brush::new(&luma16_png(1, 1, vec![1234]), 100_000).expect("brush");
    let mut one = Heightmap::flat(1024).expect("flat");
    one.sculpt(512_000, 512_000, &brush, 1_024_000, 7, true);
    let mut two = Heightmap::flat(1024).expect("flat");
    two.sculpt(512_000, 512_000, &brush, 1_024_000, 3, true);
    two.sculpt(512_000, 512_000, &brush, 1_024_000, 4, true);
    let (ob, _) = one.read_back();
    let (tb, _) = two.read_back();
    let texel = |bytes: &[u8], idx: usize| -> u16 {
        (bytes[2 * idx] as u16) | ((bytes[2 * idx + 1] as u16) << 8)
    };
    // Centre texel: 1234·7/1000 = 8 in one pass; 1234·3/1000 + 1234·4/1000
    // = 3 + 4 = 7 in two.
    let centre: usize = 512 * 1024 + 512;
    assert_eq!(texel(&ob, centre), 8);
    assert_eq!(texel(&tb, centre), 7);
    for idx in 0..1024usize * 1024 {
        let o = texel(&ob, idx);
        let t = texel(&tb, idx);
        assert!(t <= o && o <= t + 1);
    }
}

/// Readback length is always side² × 2 bytes of 16-bit samples.
#[test]
fn read_back_length() {
    for &size in &[1024usize, 2048] {
        let hm = Heightmap::flat(size).expect("flat");
        let (bytes, side) = hm.read_back();
        assert_eq!(side, size);
        assert_eq!(bytes.len(), size * size * 2);
    }
}
