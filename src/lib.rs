//! Tiled rendering core of an interactive Mandelbrot explorer: integer
//! geometry, the tile grid over the cache texture, the per-tile compute
//! lifecycle, the staging-buffer pool, the tile fill loop with cooperative
//! cancellation, and the input decisions of the view controller.

pub mod buffer_pool;
pub mod env;
pub mod event;
pub mod mandelbrot_simd;
pub mod math;
pub mod redraw;
pub mod tile_state;
pub mod tiled_fractal_app;
pub mod tiles;
