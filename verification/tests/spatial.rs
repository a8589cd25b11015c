use creature_simulation::spatial::{GridCoord, SpatialGrid};

/// The cell of a world position in a grid of the given cell size.
fn world_to_grid(cell_size: f32, x: f32, y: f32) -> GridCoord {
    GridCoord { x: (x / cell_size).floor() as i32, y: (y / cell_size).floor() as i32 }
}

/// Entities within the cells a circle around (cx, cy) touches.
fn query_radius(grid: &SpatialGrid, cell_size: f32, cx: f32, cy: f32, radius: f32) -> Vec<u64> {
    let min = world_to_grid(cell_size, cx - radius, cy - radius);
    let max = world_to_grid(cell_size, cx + radius, cy + radius);
    let mut found = grid.query_cells(min, max);
    found.sort();
    found
}

#[test]
fn test_query_radius_empty_grid() {
    let grid = SpatialGrid::new();
    assert!(query_radius(&grid, 10.0, 0.0, 0.0, 50.0).is_empty());
}

#[test]
fn test_query_radius_with_entities() {
    let mut grid = SpatialGrid::new();
    grid.update_entity(1, GridCoord { x: 0, y: 0 });
    grid.update_entity(2, GridCoord { x: 1, y: 0 });
    grid.update_entity(3, GridCoord { x: 5, y: 5 });
    let results = query_radius(&grid, 10.0, 5.0, 5.0, 15.0);
    assert_eq!(results.len(), 2);
    assert!(results.contains(&1));
    assert!(results.contains(&2));
    let results = query_radius(&grid, 10.0, 25.0, 25.0, 100.0);
    assert_eq!(results.len(), 3);
    let results = query_radius(&grid, 10.0, 100.0, 100.0, 10.0);
    assert!(results.is_empty());
}

#[test]
fn test_clear() {
    let mut grid = SpatialGrid::new();
    grid.update_entity(1, GridCoord { x: 0, y: 0 });
    assert_eq!(grid.len(), 1);
    grid.clear();
    assert_eq!(grid.len(), 0);
    assert!(grid.query_cells(GridCoord { x: -5, y: -5 }, GridCoord { x: 5, y: 5 }).is_empty());
}

#[test]
fn moving_an_entity_updates_both_directions() {
    let mut grid = SpatialGrid::new();
    grid.update_entity(9, GridCoord { x: 0, y: 0 });
    grid.update_entity(9, GridCoord { x: 3, y: -2 });
    assert_eq!(grid.position_of(9), Some(GridCoord { x: 3, y: -2 }));
    assert!(grid.query_cells(GridCoord { x: 0, y: 0 }, GridCoord { x: 0, y: 0 }).is_empty());
    assert_eq!(grid.query_cells(GridCoord { x: 3, y: -2 }, GridCoord { x: 3, y: -2 }), vec![9]);
    // Staying in place changes nothing
    grid.update_entity(9, GridCoord { x: 3, y: -2 });
    assert_eq!(grid.len(), 1);
}

#[test]
fn removed_entity_is_never_found() {
    let mut grid = SpatialGrid::new();
    grid.update_entity(1, GridCoord { x: 0, y: 0 });
    grid.update_entity(2, GridCoord { x: 0, y: 0 });
    grid.remove_entity(1);
    grid.remove_entity(77); // unknown entity: no effect
    assert_eq!(grid.position_of(1), None);
    assert_eq!(grid.query_cells(GridCoord { x: -1, y: -1 }, GridCoord { x: 1, y: 1 }), vec![2]);
}

#[test]
fn extreme_and_empty_rectangles() {
    let mut grid = SpatialGrid::new();
    grid.update_entity(1, GridCoord { x: i32::MIN, y: i32::MAX });
    grid.update_entity(2, GridCoord { x: -1, y: 0 });
    let found = grid.query_cells(GridCoord { x: i32::MIN, y: i32::MAX }, GridCoord { x: i32::MIN, y: i32::MAX });
    assert_eq!(found, vec![1]);
    // Min above max: nothing
    assert!(grid.query_cells(GridCoord { x: 1, y: 0 }, GridCoord { x: -1, y: 0 }).is_empty());
}
