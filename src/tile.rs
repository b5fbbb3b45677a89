//! Tile addresses and the ring and WKT text of a tile's query region.

use vstd::prelude::*;
use vstd::arithmetic::power2::pow2;
use crate::text::{join, append_joined};

verus! {

/// The largest zoom level at which a tile address is accepted.
pub const MAX_ZOOM: u8 = 31;

/// EPSG code of WGS84 geographic coordinates (degrees).
pub const EPSG_WGS84: i32 = 4326;

/// EPSG code of Web Mercator, the projected coordinate system of the store.
pub const EPSG_WEB_MERCATOR: i32 = 3857;

/// Why a tile query could not be answered.
#[derive(Debug, Clone, PartialEq, Eq)]
pub enum QueryError {
    /// The zoom, x or y of the tile address is out of range.
    InvalidTile,
    /// The reprojection of the tile's corners failed.
    Projection(String),
    /// The spatial store reported a failure.
    Store(String),
}

/// A slippy-map tile address.
#[derive(Debug, Clone, Copy, PartialEq, Eq)]
pub struct TileAddress {
    pub zoom: u8,
    pub x: u32,
    pub y: u32,
}

/// A tile address names a tile: the zoom is supported and x and y lie
/// below the number of tiles per axis at that zoom.
pub open spec fn valid_tile(zoom: u8, x: u32, y: u32) -> bool {
    &&& zoom <= MAX_ZOOM
    &&& (x as nat) < pow2(zoom as nat)
    &&& (y as nat) < pow2(zoom as nat)
}

impl TileAddress {
    pub open spec fn wf(&self) -> bool {
        valid_tile(self.zoom, self.x, self.y)
    }

    /// The tile at `(zoom, x, y)`, or `InvalidTile` where no such tile exists.
    /// This is the one validation gate of the tile query path.
    pub fn new(zoom: u8, x: u32, y: u32) -> (r: Result<TileAddress, QueryError>)
        ensures
            valid_tile(zoom, x, y) <==> r is Ok,
            r is Ok ==> r->Ok_0 == (TileAddress { zoom, x, y }),
            !valid_tile(zoom, x, y) ==> r == Err::<TileAddress, QueryError>(QueryError::InvalidTile),
    {
        if zoom > MAX_ZOOM {
            return Err(QueryError::InvalidTile);
        }
        if tile_exists(zoom, x, y) {
            Ok(TileAddress { zoom, x, y })
        } else {
            Err(QueryError::InvalidTile)
        }
    }
}

/// Relies on slippy_map_tiles::Tile::new: below zoom 100 it gives a tile
/// exactly when x and y are both below 2^zoom. Above zoom 31 its power of
/// two overflows `u32`, so those zooms are left out.
#[verifier::external_body]
fn tile_exists(zoom: u8, x: u32, y: u32) -> (r: bool)
    requires
        zoom <= 31,
    ensures
        r == ((x as nat) < pow2(zoom as nat) && (y as nat) < pow2(zoom as nat)),
{
    slippy_map_tiles::Tile::new(zoom, x, y).is_some()
}

/// The closed ring of a rectangle, counter-clockwise from its lower left
/// corner, with the first point repeated at the end.
pub open spec fn rect_ring<T>(min_x: T, min_y: T, max_x: T, max_y: T) -> Seq<(T, T)> {
    seq![(min_x, min_y), (max_x, min_y), (max_x, max_y), (min_x, max_y), (min_x, min_y)]
}

/// The ring of the query rectangle with the given corners.
pub fn query_ring<T: Copy>(min_x: T, min_y: T, max_x: T, max_y: T) -> (r: Vec<(T, T)>)
    ensures
        r@ == rect_ring(min_x, min_y, max_x, max_y),
        r@.len() == 5,
        r@[0] == r@[4],
{
    let r = vec![(min_x, min_y), (max_x, min_y), (max_x, max_y), (min_x, max_y), (min_x, min_y)];
    assert(r@ =~= rect_ring(min_x, min_y, max_x, max_y));
    r
}

/// A point of a ring in WKT: its two coordinates separated by a space.
pub open spec fn wkt_point(p: (String, String)) -> Seq<char> {
    p.0@ + " "@ + p.1@
}

/// A ring of points, given as coordinate text, as a WKT polygon.
pub open spec fn wkt_polygon(ring: Seq<(String, String)>) -> Seq<char> {
    "POLYGON(("@ + join(ring.map_values(|p: (String, String)| wkt_point(p)), ", "@) + "))"@
}

/// Renders a ring whose coordinates are already written as text as a WKT
/// `POLYGON((x y, ...))`, in the order given.
pub fn polygon_wkt(ring: &Vec<(String, String)>) -> (r: String)
    ensures
        r@ == wkt_polygon(ring@),
{
    let mut points: Vec<String> = Vec::new();
    let n = ring.len();
    let mut i: usize = 0;
    while i < n
        invariant
            n == ring@.len(),
            0 <= i <= n,
            points@.len() == i,
            forall|k: int| 0 <= k < i ==> #[trigger] points@[k]@ == wkt_point(ring@[k]),
        decreases n - i,
    {
        let mut p = ring[i].0.clone();
        p.append(" ");
        p.append(ring[i].1.as_str());
        points.push(p);
        i = i + 1;
    }
    let mut out = String::from_str("POLYGON((");
    append_joined(&mut out, &points, ", ");
    out.append("))");
    assert(crate::text::views(points@) =~= ring@.map_values(|p: (String, String)| wkt_point(p)));
    out
}

/// A query ring is closed: its first point is its last.
pub proof fn lemma_query_ring_closed<T>(min_x: T, min_y: T, max_x: T, max_y: T)
    ensures
        rect_ring(min_x, min_y, max_x, max_y).len() == 5,
        rect_ring(min_x, min_y, max_x, max_y)[0] == rect_ring(min_x, min_y, max_x, max_y)[4],
{
}

/// A tile address whose x or y is not below 2^zoom names no tile, so the
/// query path refuses it with `InvalidTile` before any other work.
pub proof fn lemma_out_of_range_tile_rejected(zoom: u8, x: u32, y: u32)
    requires
        (x as nat) >= pow2(zoom as nat) || (y as nat) >= pow2(zoom as nat),
    ensures
        !valid_tile(zoom, x, y),
{
}

} // verus!
