//! The discrete core of a progressive photon mapper.
//!
//! Every real quantity is held as the bit pattern of an IEEE-754 binary64
//! number ([`ray::Flt`]).  The crate proves what can be decided by ordering,
//! selecting and negating such quantities: which branch a Russian roulette
//! takes, which hit is the nearest, when a photon is stored, how a walk
//! continues, which rays an eye ray sends on, and how the text forms of the
//! data are framed.  Arithmetic on the quantities is the caller's business:
//! where a decision rests on a sum, a product or a root, the function that
//! decides takes it as an argument.
//!
//! - [`ray`]: the scalar, and below it vectors, rays and shapes, colours and
//!   wavelengths, radiance and photons, materials and surfaces, lights.
//! - [`tracer`]: the steps of the photon walk and of the eye-ray recursion.
//! - [`photonmap`]: the lines of a photon map file.
//! - [`camera`], [`screen`]: settings, the raster of pixels, pixel colours.
//! - [`scene`]: the ambient medium.
//! - [`text`]: characters, decimal numbers, regular expressions.
pub mod ray;
pub mod text;
pub mod camera;
pub mod photonmap;
pub mod scene;
pub mod screen;
pub mod tracer;
