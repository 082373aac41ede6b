//! The heightmap store: a square 16-bit height field, created flat or from an
//! image, mutated in place by sculpt passes, and read back whole for export.
//!
//! A sculpt pass blends the brush stamp onto the field around a cursor. The
//! cursor is given as an offset from the terrain's minimum corner in
//! milli-units, so `cursor / terrain_size` is the normalized position in
//! [0, 1] and every footprint test below is exact integer arithmetic.

use vstd::prelude::*;

use vstd::arithmetic::div_mod::{lemma_fundamental_div_mod, lemma_mod_bound, lemma_multiply_divide_lt};
use vstd::arithmetic::mul::lemma_mul_upper_bound;

use crate::brush::Brush;
use crate::decode::{decode_luma16, decoded_luma16};
use crate::{is_supported_size, supported_size, LoadError};

verus! {

/// The parameters of one sculpt pass, gathered for the specification.
/// All world-space lengths are in milli-units; `delta_time` is in
/// milliseconds.
pub struct SculptParams {
    /// Side length of the height field, in texels.
    pub side: int,
    /// Side length of the brush stamp, in texels.
    pub brush_side: int,
    /// World-space footprint of the brush stamp.
    pub brush_size: int,
    /// Cursor offset from the terrain's minimum corner, on each axis.
    pub cursor_x: int,
    pub cursor_z: int,
    /// World-space side length of the terrain.
    pub terrain_size: int,
    /// Time step of the pass.
    pub delta_time: int,
}

impl SculptParams {
    pub open spec fn wf(self) -> bool {
        &&& supported_size(self.side)
        &&& 1 <= self.brush_side
        &&& 1 <= self.brush_size
        &&& 1 <= self.terrain_size
        &&& 0 <= self.cursor_x <= self.terrain_size
        &&& 0 <= self.cursor_z <= self.terrain_size
        &&& 0 <= self.delta_time
    }
}

/// Builds the parameter record of one sculpt pass.
pub open spec fn sculpt_params(
    side: int,
    brush_side: int,
    brush_size: int,
    cursor_x: int,
    cursor_z: int,
    terrain_size: int,
    delta_time: int,
) -> SculptParams {
    SculptParams {
        side: side,
        brush_side: brush_side,
        brush_size: brush_size,
        cursor_x: cursor_x,
        cursor_z: cursor_z,
        terrain_size: terrain_size,
        delta_time: delta_time,
    }
}

/// Whether the texel with axis index `t` lies under the brush footprint on
/// the axis whose cursor offset is `c`. The texel's centre sits at the
/// normalized position (2t+1)/(2·side); the footprint spans
/// brush_size/terrain_size around c/terrain_size. Scaling both sides by
/// 2·side·terrain_size makes the comparison exact.
pub open spec fn in_footprint(p: SculptParams, c: int, t: int) -> bool {
    &&& -(p.side * p.brush_size) <= (2 * t + 1) * p.terrain_size - 2 * (p.side * c)
    &&& (2 * t + 1) * p.terrain_size - 2 * (p.side * c) <= p.side * p.brush_size
}

/// The brush texel column (or row) sampled for axis index `t`: the texel's
/// offset across the footprint mapped onto [0, brush_side), clamped to the
/// last texel at the far edge.
pub open spec fn brush_axis_texel(p: SculptParams, c: int, t: int) -> int {
    let off = (2 * t + 1) * p.terrain_size - 2 * (p.side * c) + p.side * p.brush_size;
    let col = (off * p.brush_side) / (2 * (p.side * p.brush_size));
    if col >= p.brush_side {
        p.brush_side - 1
    } else {
        col
    }
}

/// How far one sculpt pass moves the texel at (tx, tz): the brush sample
/// under it scaled by the time step (full strength at one second), and zero
/// outside the footprint.
pub open spec fn sculpt_delta(bpix: Seq<u16>, p: SculptParams, tx: int, tz: int) -> int {
    if in_footprint(p, p.cursor_x, tx) && in_footprint(p, p.cursor_z, tz) {
        let col = brush_axis_texel(p, p.cursor_x, tx);
        let row = brush_axis_texel(p, p.cursor_z, tz);
        (bpix[row * p.brush_side + col] * p.delta_time) / 1000
    } else {
        0
    }
}

/// One texel after an additive (raise) or subtractive (lower) blend of `d`,
/// saturating at the 16-bit range like the render target it models.
pub open spec fn blend_texel(h: u16, d: int, raise: bool) -> u16 {
    if raise {
        if h + d > 0xffff {
            0xffffu16
        } else {
            (h + d) as u16
        }
    } else {
        if h - d < 0 {
            0u16
        } else {
            (h - d) as u16
        }
    }
}

/// The whole height field after one sculpt pass.
pub open spec fn sculpted(tex: Seq<u16>, bpix: Seq<u16>, p: SculptParams, raise: bool) -> Seq<
    u16,
> {
    Seq::new(
        tex.len(),
        |i: int| blend_texel(tex[i], sculpt_delta(bpix, p, i % p.side, i / p.side), raise),
    )
}

/// The sculpt delta of the texel at (tx, tz), before the saturating blend.
/// All products fit u128: the side is at most 4096 texels, the brush side at
/// most 2^32 texels (its texel count fits usize), and world lengths and the
/// time step are u64.
fn texel_delta(
    brush: &Brush,
    side: usize,
    tx: usize,
    tz: usize,
    cursor_x: u64,
    cursor_z: u64,
    terrain_size: u64,
    delta_time: u64,
) -> (d: u128)
    requires
        brush.wf(),
        supported_size(side as int),
        tx < side,
        tz < side,
        1 <= terrain_size,
        cursor_x <= terrain_size,
        cursor_z <= terrain_size,
    ensures
        d == sculpt_delta(
            brush.texels(),
            sculpt_params(
                side as int,
                brush.side(),
                brush.footprint(),
                cursor_x as int,
                cursor_z as int,
                terrain_size as int,
                delta_time as int,
            ),
            tx as int,
            tz as int,
        ),
{
    let ghost p = sculpt_params(
        side as int,
        brush.side(),
        brush.footprint(),
        cursor_x as int,
        cursor_z as int,
        terrain_size as int,
        delta_time as int,
    );
    let side128: u128 = side as u128;
    let ts128: u128 = terrain_size as u128;
    let b128: u128 = brush.world_size() as u128;
    proof {
        lemma_mul_upper_bound(side128 as int, 4096, b128 as int, u64::MAX as int);
        lemma_mul_upper_bound(2 * (tx as u128) + 1, 8193, ts128 as int, u64::MAX as int);
        lemma_mul_upper_bound(2 * (tz as u128) + 1, 8193, ts128 as int, u64::MAX as int);
        lemma_mul_upper_bound(side128 as int, 4096, cursor_x as u128 as int, u64::MAX as int);
        lemma_mul_upper_bound(side128 as int, 4096, cursor_z as u128 as int, u64::MAX as int);
    }
    let sb: u128 = side128 * b128;
    let ax: u128 = (2 * (tx as u128) + 1) * ts128;
    let cxs: u128 = 2 * (side128 * (cursor_x as u128));
    if !(ax + sb >= cxs && ax <= cxs + sb) {
        return 0;
    }
    let az: u128 = (2 * (tz as u128) + 1) * ts128;
    let czs: u128 = 2 * (side128 * (cursor_z as u128));
    if !(az + sb >= czs && az <= czs + sb) {
        return 0;
    }
    let btex: usize = brush.texture_side();
    let bt128: u128 = btex as u128;
    let cnt: usize = brush.texel_count();
    proof {
        assert(cnt == bt128 * bt128);
        assert(bt128 <= 0x100000000) by (nonlinear_arith)
            requires
                bt128 * bt128 <= 0xffffffffffffffffu128,
        ;
        assert(1 <= sb) by (nonlinear_arith)
            requires
                1 <= side128,
                1 <= b128,
                sb == side128 * b128,
        ;
        lemma_mul_upper_bound(ax + sb - cxs, 0x40000000000000000000, bt128 as int, 0x100000000);
        lemma_mul_upper_bound(az + sb - czs, 0x40000000000000000000, bt128 as int, 0x100000000);
    }
    let offx: u128 = ax + sb - cxs;
    let offz: u128 = az + sb - czs;
    let den: u128 = 2 * sb;
    let colq: u128 = offx * bt128 / den;
    let col: usize = if colq >= bt128 {
        btex - 1
    } else {
        colq as usize
    };
    let rowq: u128 = offz * bt128 / den;
    let row: usize = if rowq >= bt128 {
        btex - 1
    } else {
        rowq as usize
    };
    proof {
        assert(col == brush_axis_texel(p, p.cursor_x, tx as int));
        assert(row == brush_axis_texel(p, p.cursor_z, tz as int));
    }
    let s: u16 = brush.sample(row, col);
    proof {
        lemma_mul_upper_bound(s as int, 0xffff, delta_time as u128 as int, u64::MAX as int);
    }
    (s as u128) * (delta_time as u128) / 1000
}

/// Law: sculpting with a zero time step leaves every texel unchanged — the
/// sculpt rate scales with the time step, so a zero step sculpts nothing.
pub proof fn lemma_sculpt_zero_delta_time(
    tex: Seq<u16>,
    bpix: Seq<u16>,
    p: SculptParams,
    raise: bool,
)
    requires
        p.delta_time == 0,
    ensures
        sculpted(tex, bpix, p, raise) == tex,
{
    let s = sculpted(tex, bpix, p, raise);
    assert forall|i: int| 0 <= i < tex.len() implies s[i] == tex[i] by {
        assert(sculpt_delta(bpix, p, i % p.side, i / p.side) == 0);
        assert(blend_texel(tex[i], 0, raise) == tex[i]);
    };
    assert(s =~= tex);
}

/// Law: a raise followed by a lower with the same brush, cursor, sizes and
/// time step restores every texel exactly, provided the raise saturates no
/// texel (no texel starts so high that adding its delta passes the 16-bit
/// range; a texel already at the ceiling would lose the overflow).
pub proof fn lemma_raise_then_lower(tex: Seq<u16>, bpix: Seq<u16>, p: SculptParams)
    requires
        0 <= p.delta_time,
        forall|i: int|
            0 <= i < tex.len() ==> tex[i] + sculpt_delta(bpix, p, i % p.side, i / p.side)
                <= 0xffff,
    ensures
        sculpted(sculpted(tex, bpix, p, true), bpix, p, false) == tex,
{
    let up = sculpted(tex, bpix, p, true);
    let dn = sculpted(up, bpix, p, false);
    assert forall|i: int| 0 <= i < tex.len() implies dn[i] == tex[i] by {
        let d = sculpt_delta(bpix, p, i % p.side, i / p.side);
        assert(0 <= d) by {
            if in_footprint(p, p.cursor_x, i % p.side) && in_footprint(p, p.cursor_z, i / p.side) {
                let v = bpix[brush_axis_texel(p, p.cursor_z, i / p.side) * p.brush_side
                    + brush_axis_texel(p, p.cursor_x, i % p.side)];
                assert((v as int) * p.delta_time >= 0) by (nonlinear_arith)
                    requires
                        p.delta_time >= 0,
                ;
            }
        }
        assert(up[i] == tex[i] + d);
        assert(dn[i] == blend_texel(up[i], d, false));
    };
    assert(dn =~= tex);
}


/// Splitting a dividend in two loses at most one unit under floor division.
proof fn lemma_div_sum_bounds(x: int, y: int, d: int)
    requires
        0 <= x,
        0 <= y,
        1 <= d,
    ensures
        x / d + y / d <= (x + y) / d <= x / d + y / d + 1,
{
    lemma_fundamental_div_mod(x, d);
    lemma_fundamental_div_mod(y, d);
    lemma_fundamental_div_mod(x + y, d);
    lemma_mod_bound(x, d);
    lemma_mod_bound(y, d);
    lemma_mod_bound(x + y, d);
    let qx = x / d;
    let rx = x % d;
    let qy = y / d;
    let ry = y % d;
    let q = (x + y) / d;
    let r = (x + y) % d;
    assert(qx + qy <= q <= qx + qy + 1) by (nonlinear_arith)
        requires
            x == d * qx + rx,
            y == d * qy + ry,
            x + y == d * q + r,
            0 <= rx < d,
            0 <= ry < d,
            0 <= r < d,
            1 <= d,
    ;
}

/// Law: the sculpt rate is linear in the time step up to quantization. One
/// pass of a+b milliseconds and passes of a then b milliseconds move every
/// texel to within one height unit of each other — each pass rounds its
/// delta down to whole height units, so the single pass may end one unit
/// farther — provided no texel clamps at the 16-bit range on the way.
pub proof fn lemma_sculpt_delta_time_additive(
    tex: Seq<u16>,
    bpix: Seq<u16>,
    p: SculptParams,
    a: int,
    b: int,
    raise: bool,
)
    requires
        0 <= a,
        0 <= b,
        p.delta_time == a + b,
        forall|i: int|
            0 <= i < tex.len() ==> (if raise {
                #[trigger] tex[i] + sculpt_delta(bpix, p, i % p.side, i / p.side) <= 0xffff
            } else {
                sculpt_delta(bpix, p, i % p.side, i / p.side) <= tex[i]
            }),
    ensures
        ({
            let pa = sculpt_params(
                p.side,
                p.brush_side,
                p.brush_size,
                p.cursor_x,
                p.cursor_z,
                p.terrain_size,
                a,
            );
            let pb = sculpt_params(
                p.side,
                p.brush_side,
                p.brush_size,
                p.cursor_x,
                p.cursor_z,
                p.terrain_size,
                b,
            );
            let one = sculpted(tex, bpix, p, raise);
            let two = sculpted(sculpted(tex, bpix, pa, raise), bpix, pb, raise);
            &&& one.len() == tex.len()
            &&& two.len() == tex.len()
            &&& forall|i: int|
                0 <= i < tex.len() ==> (if raise {
                    two[i] <= #[trigger] one[i] <= two[i] + 1
                } else {
                    two[i] - 1 <= #[trigger] one[i] <= two[i]
                })
        }),
{
    let pa = sculpt_params(
        p.side,
        p.brush_side,
        p.brush_size,
        p.cursor_x,
        p.cursor_z,
        p.terrain_size,
        a,
    );
    let pb = sculpt_params(
        p.side,
        p.brush_side,
        p.brush_size,
        p.cursor_x,
        p.cursor_z,
        p.terrain_size,
        b,
    );
    let ua = sculpted(tex, bpix, pa, raise);
    let one = sculpted(tex, bpix, p, raise);
    let two = sculpted(ua, bpix, pb, raise);
    assert forall|i: int|
        0 <= i < tex.len() implies (if raise {
        two[i] <= #[trigger] one[i] <= two[i] + 1
    } else {
        two[i] - 1 <= #[trigger] one[i] <= two[i]
    }) by {
        let tx = i % p.side;
        let tz = i / p.side;
        let dx = sculpt_delta(bpix, p, tx, tz);
        let da = sculpt_delta(bpix, pa, tx, tz);
        let db = sculpt_delta(bpix, pb, tx, tz);
        if in_footprint(p, p.cursor_x, tx) && in_footprint(p, p.cursor_z, tz) {
            let v = bpix[brush_axis_texel(p, p.cursor_z, tz) * p.brush_side + brush_axis_texel(
                p,
                p.cursor_x,
                tx,
            )];
            assert((v as int) * (a + b) == (v as int) * a + (v as int) * b) by (nonlinear_arith);
            assert(0 <= (v as int) * a && 0 <= (v as int) * b) by (nonlinear_arith)
                requires
                    0 <= a,
                    0 <= b,
            ;
            lemma_div_sum_bounds((v as int) * a, (v as int) * b, 1000);
        }
        assert(0 <= da && 0 <= db);
        assert(da + db <= dx <= da + db + 1);
        assert(one[i] == blend_texel(tex[i], dx, raise));
        assert(ua[i] == blend_texel(tex[i], da, raise));
        assert(two[i] == blend_texel(ua[i], db, raise));
    };
}

/// A square single-channel 16-bit height field. Texel values are normalized
/// heights; the field is mutated only by sculpt passes.
#[derive(Debug)]
pub struct Heightmap {
    texture_size: usize,
    texels: Vec<u16>,
}

impl Heightmap {
    /// The height samples, row-major.
    pub closed spec fn heights(&self) -> Seq<u16> {
        self.texels@
    }

    /// The field's side length in texels.
    pub closed spec fn side(&self) -> int {
        self.texture_size as int
    }

    pub open spec fn wf(&self) -> bool {
        &&& supported_size(self.side())
        &&& self.heights().len() == self.side() * self.side()
    }

    /// Side length in texels, as a run-time value.
    pub fn side_len(&self) -> (r: usize)
        ensures
            r == self.side(),
    {
        self.texture_size
    }

    /// A flat height field of the given side: every texel at zero height.
    /// Only the supported sides are accepted.
    pub fn flat(texture_size: usize) -> (r: Result<Heightmap, LoadError>)
        ensures
            match r {
                Ok(hm) => {
                    &&& supported_size(texture_size as int)
                    &&& hm.wf()
                    &&& hm.side() == texture_size
                    &&& hm.heights().len() == texture_size * texture_size
                    &&& forall|i: int| 0 <= i < hm.heights().len() ==> hm.heights()[i] == 0
                },
                Err(e) => !supported_size(texture_size as int) && e
                    == LoadError::UnsupportedSize,
            },
    {
        if !is_supported_size(texture_size) {
            return Err(LoadError::UnsupportedSize);
        }
        let n: usize = texture_size * texture_size;
        let mut texels: Vec<u16> = Vec::new();
        let mut i: usize = 0;
        while i < n
            invariant
                i <= n,
                texels@.len() == i,
                forall|j: int| 0 <= j < i ==> texels@[j] == 0,
            decreases n - i,
        {
            texels.push(0u16);
            i = i + 1;
        }
        Ok(Heightmap { texture_size, texels })
    }

    /// A height field decoded from encoded image bytes. The image must
    /// decode, be square, and have a supported side.
    pub fn from_image(bytes: &Vec<u8>) -> (r: Result<Heightmap, LoadError>)
        ensures
            match r {
                Ok(hm) => {
                    &&& hm.wf()
                    &&& match decoded_luma16(bytes@) {
                        Some((w, h, pix)) => w == h && supported_size(w as int) && hm.side() == w
                            && hm.heights() == pix,
                        None => false,
                    }
                },
                Err(e) => match decoded_luma16(bytes@) {
                    None => e == LoadError::Decode,
                    Some((w, h, pix)) => (w != h && e == LoadError::NotSquare) || (w == h
                        && !supported_size(w as int) && e == LoadError::UnsupportedSize),
                },
            },
    {
        match decode_luma16(bytes) {
            None => Err(LoadError::Decode),
            Some((w, h, texels)) => {
                if w != h {
                    Err(LoadError::NotSquare)
                } else if !is_supported_size(w as usize) {
                    Err(LoadError::UnsupportedSize)
                } else {
                    Ok(Heightmap { texture_size: w as usize, texels })
                }
            },
        }
    }

    /// One sculpt pass: blends the brush stamp onto the height field around
    /// the cursor, additively (raise) or subtractively (lower), scaled by the
    /// time step in milliseconds. The cursor is the sculpt point's offset
    /// from the terrain's minimum corner, in milli-units. The blend state is
    /// the pass's own: it touches nothing but the texels under the footprint.
    #[verifier::loop_isolation(false)]
    pub fn sculpt(
        &mut self,
        cursor_x: u64,
        cursor_z: u64,
        brush: &Brush,
        terrain_size: u64,
        delta_time: u64,
        raise: bool,
    )
        requires
            old(self).wf(),
            brush.wf(),
            1 <= terrain_size,
            cursor_x <= terrain_size,
            cursor_z <= terrain_size,
        ensures
            final(self).wf(),
            final(self).side() == old(self).side(),
            final(self).heights() == sculpted(
                old(self).heights(),
                brush.texels(),
                sculpt_params(
                    old(self).side(),
                    brush.side(),
                    brush.footprint(),
                    cursor_x as int,
                    cursor_z as int,
                    terrain_size as int,
                    delta_time as int,
                ),
                raise,
            ),
            delta_time == 0 ==> final(self).heights() == old(self).heights(),
    {
        let ghost p = sculpt_params(
            self.side(),
            brush.side(),
            brush.footprint(),
            cursor_x as int,
            cursor_z as int,
            terrain_size as int,
            delta_time as int,
        );
        let ghost target = sculpted(self.heights(), brush.texels(), p, raise);
        let side: usize = self.texture_size;
        let n: usize = self.texels.len();
        let mut out: Vec<u16> = Vec::new();
        let mut i: usize = 0;
        while i < n
            invariant
                i <= n,
                out@.len() == i,
                forall|j: int| 0 <= j < i ==> out@[j] == target[j],
            decreases n - i,
        {
            let tx: usize = i % side;
            let tz: usize = i / side;
            proof {
                lemma_multiply_divide_lt(i as int, side as int, side as int);
            }
            let d: u128 = texel_delta(
                brush,
                side,
                tx,
                tz,
                cursor_x,
                cursor_z,
                terrain_size,
                delta_time,
            );
            let h: u16 = self.texels[i];
            let v: u16 = if raise {
                if d > 0xffff || (h as u128) + d > 0xffff {
                    0xffffu16
                } else {
                    ((h as u128) + d) as u16
                }
            } else {
                if (h as u128) < d {
                    0u16
                } else {
                    ((h as u128) - d) as u16
                }
            };
            proof {
                assert(v == blend_texel(h, sculpt_delta(brush.texels(), p, tx as int, tz as int), raise));
            }
            out.push(v);
            i = i + 1;
        }
        proof {
            assert(out@ =~= target);
            if delta_time == 0 {
                lemma_sculpt_zero_delta_time(self.heights(), brush.texels(), p, raise);
            }
        }
        self.texels = out;
    }

    /// The full texel buffer as bytes, two per sample little-endian, together
    /// with the side length. This is the only operation that pulls the whole
    /// height field out; it is meant for export, not for the frame loop.
    pub fn read_back(&self) -> (r: (Vec<u8>, usize))
        requires
            self.wf(),
        ensures
            r.1 == self.side(),
            r.0@.len() == self.side() * self.side() * 2,
            forall|i: int|
                0 <= i < self.heights().len() ==> r.0@[2 * i] == self.heights()[i] % 256
                    && r.0@[2 * i + 1] == self.heights()[i] / 256,
    {
        let n: usize = self.texels.len();
        let mut bytes: Vec<u8> = Vec::new();
        let mut i: usize = 0;
        while i < n
            invariant
                i <= n,
                n == self.texels@.len(),
                bytes@.len() == 2 * i,
                forall|j: int|
                    0 <= j < i ==> bytes@[2 * j] == self.heights()[j] % 256 && bytes@[2 * j + 1]
                        == self.heights()[j] / 256,
            decreases n - i,
        {
            let t: u16 = self.texels[i];
            bytes.push((t % 256) as u8);
            bytes.push((t / 256) as u8);
            i = i + 1;
        }
        proof {
            assert(self.side() * self.side() * 2 == 2 * (self.texture_size
                * self.texture_size));
        }
        (bytes, self.texture_size)
    }
}

} // verus!
