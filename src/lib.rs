//! Integer core of a Monte Carlo path tracer: random integer draws, Perlin
//! lattice permutations, bitmap pixel fetch, tile partitioning of the image,
//! stratified sampling grids, worker admission and the branch structure of
//! the radiance estimator.

pub mod rtweekend;
pub mod perlin;
pub mod rtw;
pub mod bvh;
pub mod camera;
pub mod pool;
pub mod integrator;
pub mod texture;
pub mod onb;
pub mod pdf;
pub mod hit_list;
