//! A 2D grid library for tile-based games and simulations: dense row-major
//! grids addressed by integer positions, position-aware iteration, shape
//! patterns translated onto a caller-chosen center, and shortest-path queries.

pub mod grid;
pub mod grid_iter;
pub mod pathing;
pub mod pattern_cache;
pub mod patterns;
pub mod position;
pub mod rect_size;
pub mod shapes;

pub use grid::BoundsError;
pub use grid::Grid;
pub use grid::to_grid_index;
pub use grid::to_grid_position;
pub use grid_iter::GridIntoIter;
pub use pathing::get_neighbors;
pub use pathing::get_shortest_path;
pub use pathing::path_exists;
pub use grid_iter::GridIter;
pub use grid_iter::GridIterMut;
pub use pattern_cache::PatternCache;
pub use pattern_cache::PatternHandle;
pub use pattern_cache::PatternKey;
pub use patterns::get_grid_values_from_pattern;
pub use patterns::GridPattern;
pub use patterns::PatternPositions;
pub use position::Position;
pub use rect_size::RectSize;
pub use rect_size::SizeIter;
pub use shapes::empty_new_square_pattern;
pub use shapes::new_adjacent_pattern;
pub use shapes::new_cross_pattern;
pub use shapes::new_empty_rectangle_pattern;
pub use shapes::new_rectangle_pattern;
pub use shapes::new_square_pattern;
