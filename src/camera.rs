use vstd::prelude::*;

verus! {

/// Number of tile rows the image is cut into.
pub const HEIGHT_PARTITION: u32 = 20;

/// Number of tile columns the image is cut into.
pub const WIDTH_PARTITION: u32 = 20;

/// Most render workers that may run at once.
pub const THREAD_LIMIT: usize = 40;

/// Whether the value of the `CI` variable asks for a run without progress
/// display: it is exactly `"true"`.
pub fn is_ci(ci: Option<&str>) -> (r: bool)
    ensures
        r == (ci.is_some() && ci.unwrap()@ == "true"@),
{
    match ci {
        Some(v) => {
            let owned = v.to_owned();
            let expected = "true".to_owned();
            owned == expected
        },
        None => false,
    }
}

/// `a / b` rounded up.
pub open spec fn ceil_div(a: int, b: int) -> int {
    (a + b - 1) / b
}

/// The smaller of two integers.
pub open spec fn min_int(a: int, b: int) -> int {
    if a < b {
        a
    } else {
        b
    }
}

/// First coordinate of tile `index` when tiles are `chunk` wide, clipped to the image.
pub open spec fn tile_lo(index: int, chunk: int, extent: int) -> int {
    min_int(index * chunk, extent)
}

/// One past the last coordinate of tile `index`, clipped to the image.
pub open spec fn tile_hi(index: int, chunk: int, extent: int) -> int {
    min_int((index + 1) * chunk, extent)
}

/// Width of a tile when `extent` pixels are cut into `parts` tiles.
pub fn chunk_len(extent: u32, parts: u32) -> (r: u32)
    requires
        parts > 0,
    ensures
        r == ceil_div(extent as int, parts as int),
{
    let r = (extent as u64 + parts as u64 - 1) / parts as u64;
    assert(r <= extent) by (nonlinear_arith)
        requires
            r == (extent + parts - 1) / (parts as int),
            parts > 0,
    ;
    r as u32
}

/// The coordinates `lo .. hi` that tile `index` covers along one axis.
pub fn tile_span(index: u32, chunk: u32, extent: u32) -> (r: (u32, u32))
    ensures
        r.0 == tile_lo(index as int, chunk as int, extent as int),
        r.1 == tile_hi(index as int, chunk as int, extent as int),
        r.0 <= r.1,
{
    assert(index * chunk <= 0xFFFF_FFFE_0000_0001) by (nonlinear_arith)
        requires
            index <= 0xFFFF_FFFF, chunk <= 0xFFFF_FFFF,
    ;
    let lo = index as u64 * chunk as u64;
    let hi = lo + chunk as u64;
    assert(hi == (index + 1) * chunk) by (nonlinear_arith)
        requires
            lo == index * chunk, hi == lo + chunk,
    ;
    assert(lo <= hi);
    let clo = if lo < extent as u64 { lo as u32 } else { extent };
    let chi = if hi < extent as u64 { hi as u32 } else { extent };
    (clo, chi)
}

/// Along an axis of `extent` pixels cut into `parts` tiles, pixel `x` lies in
/// tile `x / chunk` and in no other: the tiles cover the axis without overlap.
pub proof fn lemma_tiles_partition(extent: int, parts: int, x: int, other: int)
    requires
        parts > 0,
        0 <= x < extent,
        0 <= other < parts,
        other != x / ceil_div(extent, parts),
    ensures
        x / ceil_div(extent, parts) < parts,
        tile_lo(x / ceil_div(extent, parts), ceil_div(extent, parts), extent) <= x,
        x < tile_hi(x / ceil_div(extent, parts), ceil_div(extent, parts), extent),
        !(tile_lo(other, ceil_div(extent, parts), extent) <= x < tile_hi(
            other,
            ceil_div(extent, parts),
            extent,
        )),
{
    let c = ceil_div(extent, parts);
    assert(c >= 1) by (nonlinear_arith)
        requires
            extent > 0, parts > 0, c == (extent + parts - 1) / parts,
    ;
    let t = x / c;
    assert(t * c <= x < (t + 1) * c) by (nonlinear_arith)
        requires
            c >= 1, t == x / c,
    ;
    assert(t < parts) by (nonlinear_arith)
        requires
            c >= 1, t == x / c, x < extent, parts > 0, c == (extent + parts - 1) / parts,
            t * c <= x,
    ;
    if other < t {
        assert((other + 1) * c <= t * c) by (nonlinear_arith)
            requires
                other + 1 <= t, c >= 1,
        ;
    } else {
        assert(x < other * c) by (nonlinear_arith)
            requires
                t + 1 <= other, c >= 1, x < (t + 1) * c,
        ;
    }
}

/// A rectangle of pixels: columns `x_min .. x_max`, rows `y_min .. y_max`.
#[derive(Clone, Copy, Debug, PartialEq, Eq)]
pub struct Tile {
    pub x_min: u32,
    pub x_max: u32,
    pub y_min: u32,
    pub y_max: u32,
}

/// Tile `(i, j)` of an image `width` by `height` cut into the fixed grid of tiles.
pub open spec fn tile_spec(i: int, j: int, width: int, height: int) -> Tile {
    let cw = ceil_div(width, WIDTH_PARTITION as int);
    let ch = ceil_div(height, HEIGHT_PARTITION as int);
    Tile {
        x_min: tile_lo(i, cw, width) as u32,
        x_max: tile_hi(i, cw, width) as u32,
        y_min: tile_lo(j, ch, height) as u32,
        y_max: tile_hi(j, ch, height) as u32,
    }
}

/// The tiles in the order rendering hands them to workers: row of tiles by
/// row of tiles, each row left to right.
pub fn tiles(width: u32, height: u32) -> (r: Vec<Tile>)
    ensures
        r@.len() == HEIGHT_PARTITION * WIDTH_PARTITION,
        forall|j: int, i: int|
            0 <= j < HEIGHT_PARTITION && 0 <= i < WIDTH_PARTITION ==> #[trigger] r@[j
                * WIDTH_PARTITION + i] == tile_spec(i, j, width as int, height as int),
{
    let chunk_height = chunk_len(height, HEIGHT_PARTITION);
    let chunk_width = chunk_len(width, WIDTH_PARTITION);
    let mut r: Vec<Tile> = Vec::new();
    let mut j: u32 = 0;
    while j < HEIGHT_PARTITION
        invariant
            j <= HEIGHT_PARTITION,
            chunk_height == ceil_div(height as int, HEIGHT_PARTITION as int),
            chunk_width == ceil_div(width as int, WIDTH_PARTITION as int),
            r@.len() == j * WIDTH_PARTITION,
            forall|jj: int, ii: int|
                0 <= jj < j && 0 <= ii < WIDTH_PARTITION ==> #[trigger] r@[jj * WIDTH_PARTITION
                    + ii] == tile_spec(ii, jj, width as int, height as int),
        decreases HEIGHT_PARTITION - j,
    {
        let (y_min, y_max) = tile_span(j, chunk_height, height);
        let mut i: u32 = 0;
        while i < WIDTH_PARTITION
            invariant
                j < HEIGHT_PARTITION,
                i <= WIDTH_PARTITION,
                chunk_height == ceil_div(height as int, HEIGHT_PARTITION as int),
                chunk_width == ceil_div(width as int, WIDTH_PARTITION as int),
                y_min == tile_lo(j as int, chunk_height as int, height as int),
                y_max == tile_hi(j as int, chunk_height as int, height as int),
                r@.len() == j * WIDTH_PARTITION + i,
                forall|jj: int, ii: int|
                    0 <= jj < j && 0 <= ii < WIDTH_PARTITION ==> #[trigger] r@[jj
                        * WIDTH_PARTITION + ii] == tile_spec(ii, jj, width as int, height as int),
                forall|ii: int|
                    0 <= ii < i ==> #[trigger] r@[j * WIDTH_PARTITION + ii] == tile_spec(
                        ii,
                        j as int,
                        width as int,
                        height as int,
                    ),
            decreases WIDTH_PARTITION - i,
        {
            let (x_min, x_max) = tile_span(i, chunk_width, width);
            let ghost old_r = r@;
            r.push(Tile { x_min, x_max, y_min, y_max });
            assert forall|jj: int, ii: int|
                0 <= jj < j && 0 <= ii < WIDTH_PARTITION implies #[trigger] r@[jj * WIDTH_PARTITION
                    + ii] == tile_spec(ii, jj, width as int, height as int) by {
                assert(jj * WIDTH_PARTITION + ii < j * WIDTH_PARTITION) by (nonlinear_arith)
                    requires
                        jj < j, ii < WIDTH_PARTITION,
                ;
                assert(r@[jj * WIDTH_PARTITION + ii] == old_r[jj * WIDTH_PARTITION + ii]);
            }
            i += 1;
        }
        j += 1;
    }
    r
}

/// Side of the stratified sampling grid: the largest `n` with `n * n` not
/// above the requested samples per pixel.
pub fn samples_per_side(samples_per_pixel: u32) -> (r: u32)
    ensures
        r * r <= samples_per_pixel,
        samples_per_pixel < (r + 1) * (r + 1),
{
    let spp = samples_per_pixel as u64;
    let mut r: u64 = 0;
    loop
        invariant
            r * r <= spp,
            spp <= u32::MAX,
            r <= 0xFFFF,
        ensures
            r * r <= spp < (r + 1) * (r + 1),
            r <= 0xFFFF,
        decreases 0xFFFF - r,
    {
        let next = r + 1;
        assert(next * next <= 0x1_0000_0000) by (nonlinear_arith)
            requires
                next <= 0x1_0000,
        ;
        if next * next > spp {
            break;
        }
        assert(next <= 0xFFFF) by (nonlinear_arith)
            requires
                next * next <= spp, spp <= u32::MAX,
        ;
        r = next;
        if r == 0xFFFF {
            assert(spp < (r + 1) * (r + 1));
            break;
        }
    }
    r as u32
}

} // verus!
