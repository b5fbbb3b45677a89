use map_data::tile::{polygon_wkt, query_ring, QueryError, TileAddress, MAX_ZOOM};

#[test]
fn accepts_gifu_area_tile() {
    let t = TileAddress::new(10, 905, 403).unwrap();
    assert_eq!(t, TileAddress { zoom: 10, x: 905, y: 403 });
}

#[test]
fn accepts_tiles_at_the_edges() {
    assert!(TileAddress::new(0, 0, 0).is_ok());
    assert!(TileAddress::new(10, 1023, 1023).is_ok());
    assert!(TileAddress::new(MAX_ZOOM, 2147483647, 0).is_ok());
}

#[test]
fn rejects_x_or_y_out_of_range() {
    assert_eq!(TileAddress::new(0, 1, 0), Err(QueryError::InvalidTile));
    assert_eq!(TileAddress::new(0, 0, 1), Err(QueryError::InvalidTile));
    assert_eq!(TileAddress::new(10, 1024, 0), Err(QueryError::InvalidTile));
    assert_eq!(TileAddress::new(10, 0, 1024), Err(QueryError::InvalidTile));
    assert_eq!(TileAddress::new(10, 4000000000, 4000000000), Err(QueryError::InvalidTile));
}

#[test]
fn rejects_zoom_above_maximum() {
    assert_eq!(TileAddress::new(32, 0, 0), Err(QueryError::InvalidTile));
    assert_eq!(TileAddress::new(255, 0, 0), Err(QueryError::InvalidTile));
}

#[test]
fn query_ring_is_closed_rectangle() {
    let r = query_ring(1.0f64, 2.0f64, 3.0f64, 4.0f64);
    assert_eq!(r, vec![(1.0, 2.0), (3.0, 2.0), (3.0, 4.0), (1.0, 4.0), (1.0, 2.0)]);
    assert_eq!(r[0], r[4]);
}

#[test]
fn query_ring_with_zero_buffer_is_closed() {
    let r = query_ring(5i64, 5i64, 5i64, 5i64);
    assert_eq!(r.len(), 5);
    assert_eq!(r.first(), r.last());
}

#[test]
fn polygon_wkt_renders_ring() {
    let ring: Vec<(String, String)> = query_ring(1.5f64, -2.0f64, 3.25f64, 4.0f64)
        .into_iter()
        .map(|(x, y)| (x.to_string(), y.to_string()))
        .collect();
    assert_eq!(
        polygon_wkt(&ring),
        "POLYGON((1.5 -2, 3.25 -2, 3.25 4, 1.5 4, 1.5 -2))"
    );
}
