//! The terrain: a fixed grid of tessellation patches displaced by the height
//! field. It owns the heightmap store and the brush, derives its bounding
//! box once at construction, picks the sculpt cursor with ray/AABB
//! intersection, and forwards sculpt strokes into the height field.

use vstd::prelude::*;

use vstd::arithmetic::div_mod::lemma_multiply_divide_lt;

use crate::brush::Brush;
use crate::decode::decoded_luma16;
use crate::heightmap::{sculpt_params, sculpted, Heightmap};
use crate::ray::{
    lemma_signed_product_bound, ray_pick, spec_pick, Aabb, HitPoint, Ray, Vec3i, COORD_LIMIT,
    POINT_NUM_LIMIT,
};
use crate::{supported_size, LoadError};

verus! {

/// The sculpt cursor: a terrain-space position on the floor plane, or hidden
/// while the pointer does not hover the terrain.
#[derive(Clone, Copy, Debug, PartialEq, Eq, Structural)]
pub enum CursorPos {
    Hidden,
    At(i64, i64),
}

/// Where the height field comes from: flat at a given side, or decoded from
/// encoded image bytes. Exactly one source — the choice is a type-level
/// fact, not a precondition.
pub enum HeightmapSource {
    Flat(usize),
    FromImage(Vec<u8>),
}

/// The error `Heightmap::from_image` gives for these bytes, if any.
pub open spec fn image_load_error(bytes: Seq<u8>) -> Option<LoadError> {
    match decoded_luma16(bytes) {
        None => Some(LoadError::Decode),
        Some((w, h, pix)) => if w != h {
            Some(LoadError::NotSquare)
        } else if !supported_size(w as int) {
            Some(LoadError::UnsupportedSize)
        } else {
            None
        },
    }
}

/// The error `Brush::new` gives for these bytes, if any.
pub open spec fn brush_load_error(bytes: Seq<u8>) -> Option<LoadError> {
    match decoded_luma16(bytes) {
        None => Some(LoadError::Decode),
        Some((w, h, pix)) => if w != h {
            Some(LoadError::NotSquare)
        } else if w == 0 {
            Some(LoadError::Empty)
        } else {
            None
        },
    }
}

/// The error the height field source gives, if any.
pub open spec fn source_load_error(source: HeightmapSource) -> Option<LoadError> {
    match source {
        HeightmapSource::Flat(size) => if supported_size(size as int) {
            None
        } else {
            Some(LoadError::UnsupportedSize)
        },
        HeightmapSource::FromImage(bytes) => image_load_error(bytes@),
    }
}

/// The single aggregated error of terrain construction: the height field's
/// failure first, else the brush's.
pub open spec fn construct_error(source: HeightmapSource, brush_bytes: Seq<u8>) -> Option<
    LoadError,
> {
    match source_load_error(source) {
        Some(e) => Some(e),
        None => brush_load_error(brush_bytes),
    }
}

/// num/den rounded down to an integer and clamped into [lo, hi].
pub open spec fn clamp_round(num: int, den: int, lo: int, hi: int) -> int {
    if num <= lo * den {
        lo
    } else if num >= hi * den {
        hi
    } else {
        lo + (num - lo * den) / den
    }
}

/// Rounds num/den down and clamps it into [lo, hi].
fn clamp_round_exec(num: i128, den: i128, lo: i64, hi: i64) -> (r: i64)
    requires
        1 <= den <= COORD_LIMIT as i128,
        -POINT_NUM_LIMIT <= num <= POINT_NUM_LIMIT,
        -COORD_LIMIT <= lo <= COORD_LIMIT,
        -COORD_LIMIT <= hi <= COORD_LIMIT,
        lo <= hi,
    ensures
        r == clamp_round(num as int, den as int, lo as int, hi as int),
        lo <= r <= hi,
{
    proof {
        lemma_signed_product_bound(lo as int, den as int, COORD_LIMIT as int, COORD_LIMIT as int);
        lemma_signed_product_bound(hi as int, den as int, COORD_LIMIT as int, COORD_LIMIT as int);
    }
    let lod: i128 = (lo as i128) * den;
    let hid: i128 = (hi as i128) * den;
    if num <= lod {
        lo
    } else if num >= hid {
        hi
    } else {
        let diff: i128 = num - lod;
        proof {
            assert(diff < den * ((hi - lo) as int)) by (nonlinear_arith)
                requires
                    diff < hid - lod,
                    hid == hi * den,
                    lod == lo * den,
            ;
            lemma_multiply_divide_lt(diff as int, den as int, (hi - lo) as int);
        }
        let q: u128 = (diff as u128) / (den as u128);
        lo + (q as i64)
    }
}

/// The editable terrain. All world lengths are in milli-units: the terrain
/// spans 64 patches of 16 world units around the origin, rises at most 200
/// units, and the height field starts flat or comes from an image.
#[derive(Debug)]
pub struct Terrain {
    aabb: Aabb,
    tess_level: u64,
    heightmap: Heightmap,
    cursor: CursorPos,
    brush: Brush,
    center_x: i64,
    center_z: i64,
    max_height: i64,
    num_patches: u64,
    patch_size: i64,
}

impl Terrain {
    /// The terrain's bounding box.
    pub closed spec fn spec_aabb(&self) -> Aabb {
        self.aabb
    }

    /// The sculpt cursor.
    pub closed spec fn spec_cursor(&self) -> CursorPos {
        self.cursor
    }

    /// The brush the sculpt strokes use.
    pub closed spec fn spec_brush(&self) -> Brush {
        self.brush
    }

    /// The uniform tessellation level, in milli-units.
    pub closed spec fn spec_tess_level(&self) -> u64 {
        self.tess_level
    }

    /// Patches along one edge of the grid.
    pub closed spec fn spec_num_patches(&self) -> u64 {
        self.num_patches
    }

    /// World-space side of one patch, in milli-units.
    pub closed spec fn spec_patch_size(&self) -> i64 {
        self.patch_size
    }

    /// The terrain's centre (always the origin).
    pub closed spec fn spec_center(&self) -> (i64, i64) {
        (self.center_x, self.center_z)
    }

    /// The greatest height the displacement can reach, in milli-units.
    pub closed spec fn spec_max_height(&self) -> i64 {
        self.max_height
    }

    /// The height field's samples, row-major.
    pub open spec fn heights(&self) -> Seq<u16> {
        self.spec_heightmap().heights()
    }

    /// The height field's side length in texels.
    pub open spec fn side(&self) -> int {
        self.spec_heightmap().side()
    }

    /// The heightmap store.
    pub closed spec fn spec_heightmap(&self) -> Heightmap {
        self.heightmap
    }

    pub open spec fn wf(&self) -> bool {
        &&& self.spec_aabb() == (Aabb {
            min: Vec3i { x: -512000i64, y: 0i64, z: -512000i64 },
            max: Vec3i { x: 512000i64, y: 200000i64, z: 512000i64 },
        })
        &&& self.spec_num_patches() == 64
        &&& self.spec_patch_size() == 16000
        &&& self.spec_center() == (0i64, 0i64)
        &&& self.spec_max_height() == 200000
        &&& self.spec_heightmap().wf()
        &&& self.spec_brush().wf()
        &&& match self.spec_cursor() {
            CursorPos::Hidden => true,
            CursorPos::At(x, z) => -512000 <= x <= 512000 && -512000 <= z <= 512000,
        }
    }

    /// Builds the terrain: the bounding box from the fixed patch grid and
    /// maximum height, the height field from its source, and the brush from
    /// its image bytes with the given world-space footprint. Any sub-resource
    /// failure aborts construction with that error. Only the origin-centred
    /// terrain exists.
    pub fn new(
        center_x: i64,
        center_z: i64,
        source: HeightmapSource,
        brush_bytes: &Vec<u8>,
        brush_size: u64,
    ) -> (r: Result<Terrain, LoadError>)
        requires
            center_x == 0,
            center_z == 0,
            1 <= brush_size,
        ensures
            r is Ok <==> construct_error(source, brush_bytes@) is None,
            match r {
                Ok(t) => {
                    &&& t.wf()
                    &&& t.spec_cursor() == CursorPos::Hidden
                    &&& t.spec_tess_level() == 11000
                    &&& t.spec_brush().footprint() == brush_size
                    &&& match decoded_luma16(brush_bytes@) {
                        Some((w, h, pix)) => w == h && 1 <= w && t.spec_brush().side() == w
                            && t.spec_brush().texels() == pix,
                        None => false,
                    }
                    &&& match source {
                        HeightmapSource::Flat(size) => {
                            &&& supported_size(size as int)
                            &&& t.side() == size
                            &&& t.heights().len() == size * size
                            &&& forall|i: int| 0 <= i < t.heights().len() ==> t.heights()[i] == 0
                        },
                        HeightmapSource::FromImage(bytes) => match decoded_luma16(bytes@) {
                            Some((w, h, pix)) => w == h && supported_size(w as int) && t.side()
                                == w && t.heights() == pix,
                            None => false,
                        },
                    }
                },
                Err(e) => construct_error(source, brush_bytes@) == Some(e),
            },
    {
        let heightmap = match source {
            HeightmapSource::Flat(size) => Heightmap::flat(size),
            HeightmapSource::FromImage(bytes) => Heightmap::from_image(&bytes),
        };
        let heightmap = match heightmap {
            Ok(hm) => hm,
            Err(e) => {
                return Err(e);
            },
        };
        let brush = match Brush::new(brush_bytes, brush_size) {
            Ok(b) => b,
            Err(e) => {
                return Err(e);
            },
        };
        let aabb = Aabb {
            min: Vec3i { x: -512000i64, y: 0i64, z: -512000i64 },
            max: Vec3i { x: 512000i64, y: 200000i64, z: 512000i64 },
        };
        Ok(
            Terrain {
                aabb,
                tess_level: 11000,
                heightmap,
                cursor: CursorPos::Hidden,
                brush,
                center_x,
                center_z,
                max_height: 200000,
                num_patches: 64,
                patch_size: 16000,
            },
        )
    }

    /// World-space side length of the terrain, in milli-units.
    pub fn size(&self) -> (r: i64)
        requires
            self.wf(),
        ensures
            r == self.spec_aabb().max.x - self.spec_aabb().min.x,
    {
        self.aabb.max.x - self.aabb.min.x
    }

    /// Converts the cursor into the height field's frame (its offset from
    /// the box's minimum corner) and sculpts there; with the cursor hidden,
    /// sculpts nothing.
    pub fn shape_terrain(&mut self, delta_time: u64, raise: bool)
        requires
            old(self).wf(),
        ensures
            final(self).wf(),
            final(self).spec_aabb() == old(self).spec_aabb(),
            final(self).spec_cursor() == old(self).spec_cursor(),
            final(self).spec_brush() == old(self).spec_brush(),
            final(self).spec_tess_level() == old(self).spec_tess_level(),
            final(self).side() == old(self).side(),
            match old(self).spec_cursor() {
                CursorPos::Hidden => final(self).heights() == old(self).heights(),
                CursorPos::At(cx, cz) => final(self).heights() == sculpted(
                    old(self).heights(),
                    old(self).spec_brush().texels(),
                    sculpt_params(
                        old(self).side(),
                        old(self).spec_brush().side(),
                        old(self).spec_brush().footprint(),
                        cx - old(self).spec_aabb().min.x,
                        cz - old(self).spec_aabb().min.z,
                        old(self).spec_aabb().max.x - old(self).spec_aabb().min.x,
                        delta_time as int,
                    ),
                    raise,
                ),
            },
            delta_time == 0 ==> final(self).heights() == old(self).heights(),
    {
        match self.cursor {
            CursorPos::Hidden => {},
            CursorPos::At(cx, cz) => {
                let off_x: u64 = (cx - self.aabb.min.x) as u64;
                let off_z: u64 = (cz - self.aabb.min.z) as u64;
                let terrain_size: u64 = (self.aabb.max.x - self.aabb.min.x) as u64;
                self.heightmap.sculpt(off_x, off_z, &self.brush, terrain_size, delta_time, raise);
            },
        }
    }

    /// Intersects a ray with the terrain's box, keeping only floor-plane
    /// hits: the far hit point, exact, or nothing.
    pub fn intersect_with_ray(&self, ray: &Ray) -> (r: Option<HitPoint>)
        requires
            self.wf(),
            ray.wf(),
        ensures
            r == spec_pick(*ray, self.spec_aabb()),
            r matches Some(p) ==> p.bounded(),
    {
        ray_pick(ray, &self.aabb)
    }

    /// Picks with the ray: on a floor hit, clamps the hit's x/z into the
    /// box and places the cursor there, returning true; on any miss, hides
    /// the cursor and returns false.
    pub fn move_cursor(&mut self, ray: &Ray) -> (r: bool)
        requires
            old(self).wf(),
            ray.wf(),
        ensures
            final(self).wf(),
            final(self).spec_aabb() == old(self).spec_aabb(),
            final(self).spec_brush() == old(self).spec_brush(),
            final(self).spec_tess_level() == old(self).spec_tess_level(),
            final(self).heights() == old(self).heights(),
            final(self).side() == old(self).side(),
            r == (spec_pick(*ray, old(self).spec_aabb()) is Some),
            match spec_pick(*ray, old(self).spec_aabb()) {
                Some(p) => final(self).spec_cursor() == CursorPos::At(
                    clamp_round(
                        p.num_x as int,
                        p.den as int,
                        old(self).spec_aabb().min.x as int,
                        old(self).spec_aabb().max.x as int,
                    ) as i64,
                    clamp_round(
                        p.num_z as int,
                        p.den as int,
                        old(self).spec_aabb().min.z as int,
                        old(self).spec_aabb().max.z as int,
                    ) as i64,
                ),
                None => final(self).spec_cursor() == CursorPos::Hidden,
            },
            r ==> match final(self).spec_cursor() {
                CursorPos::At(x, z) => old(self).spec_aabb().min.x <= x <= old(
                    self,
                ).spec_aabb().max.x && old(self).spec_aabb().min.z <= z <= old(
                    self,
                ).spec_aabb().max.z,
                CursorPos::Hidden => false,
            },
    {
        match self.intersect_with_ray(ray) {
            Some(p) => {
                let cx: i64 = clamp_round_exec(p.num_x, p.den, self.aabb.min.x, self.aabb.max.x);
                let cz: i64 = clamp_round_exec(p.num_z, p.den, self.aabb.min.z, self.aabb.max.z);
                self.cursor = CursorPos::At(cx, cz);
                true
            },
            None => {
                self.cursor = CursorPos::Hidden;
                false
            },
        }
    }

    /// Force-hides the cursor.
    pub fn hide_cursor(&mut self)
        ensures
            final(self).spec_cursor() == CursorPos::Hidden,
            final(self).spec_aabb() == old(self).spec_aabb(),
            final(self).spec_brush() == old(self).spec_brush(),
            final(self).spec_tess_level() == old(self).spec_tess_level(),
            final(self).heights() == old(self).heights(),
            final(self).side() == old(self).side(),
            old(self).wf() ==> final(self).wf(),
    {
        self.cursor = CursorPos::Hidden;
    }

    /// The height field as raw 16-bit samples, two bytes each little-endian,
    /// with the side length — the export readback.
    pub fn get_heightmap_pixels(&self) -> (r: (Vec<u8>, usize))
        requires
            self.wf(),
        ensures
            r.1 == self.side(),
            r.0@.len() == self.side() * self.side() * 2,
            forall|i: int|
                0 <= i < self.heights().len() ==> r.0@[2 * i] == self.heights()[i] % 256 && r.0@[2
                    * i + 1] == self.heights()[i] / 256,
    {
        self.heightmap.read_back()
    }

    /// How many patch instances one frame draws, for the shadow pass and the
    /// main pass alike: the full num_patches × num_patches grid.
    pub fn instance_count(&self) -> (r: u64)
        requires
            self.wf(),
        ensures
            r == self.spec_num_patches() * self.spec_num_patches(),
    {
        self.num_patches * self.num_patches
    }

    /// The current cursor.
    pub fn cursor(&self) -> (r: CursorPos)
        ensures
            r == self.spec_cursor(),
    {
        self.cursor
    }

    /// The terrain's bounding box.
    pub fn aabb(&self) -> (r: Aabb)
        ensures
            r == self.spec_aabb(),
    {
        self.aabb
    }

    /// The terrain's centre.
    pub fn center(&self) -> (r: (i64, i64))
        ensures
            r == self.spec_center(),
    {
        (self.center_x, self.center_z)
    }

    /// The greatest height the displacement can reach, in milli-units.
    pub fn max_height(&self) -> (r: i64)
        ensures
            r == self.spec_max_height(),
    {
        self.max_height
    }

    /// Patches along one edge of the grid.
    pub fn num_patches(&self) -> (r: u64)
        ensures
            r == self.spec_num_patches(),
    {
        self.num_patches
    }

    /// World-space side of one patch, in milli-units.
    pub fn patch_size(&self) -> (r: i64)
        ensures
            r == self.spec_patch_size(),
    {
        self.patch_size
    }

    /// The uniform tessellation level, in milli-units.
    pub fn tess_level(&self) -> (r: u64)
        ensures
            r == self.spec_tess_level(),
    {
        self.tess_level
    }

    /// Sets the uniform tessellation level (the one other per-frame mutable
    /// besides the cursor).
    pub fn set_tess_level(&mut self, level: u64)
        ensures
            final(self).spec_tess_level() == level,
            final(self).spec_aabb() == old(self).spec_aabb(),
            final(self).spec_cursor() == old(self).spec_cursor(),
            final(self).spec_brush() == old(self).spec_brush(),
            final(self).heights() == old(self).heights(),
            final(self).side() == old(self).side(),
            old(self).wf() ==> final(self).wf(),
    {
        self.tess_level = level;
    }
}

} // verus!
