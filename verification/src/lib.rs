//! An offline Monte Carlo path tracer with a verified core.
//!
//! The renderer works on a signed fixed-point grid (`fx::Fx`): every scalar
//! the pipeline touches — coordinates, colors, ray parameters — is a multiple
//! of 1/65536, and every operation on it has an exact contract.  Geometry,
//! materials, the radiance integrator and the tiled scheduler are all
//! verified against functional models; sampling is driven by a deterministic
//! per-pixel seeded generator, so a whole render is a mathematical function
//! of the scene, the options and the seed.

pub mod camera;
pub mod config;
pub mod fx;
pub mod image;
pub mod material;
pub mod mesh;
pub mod object;
pub mod ray;
pub mod rng;
pub mod scene;
pub mod texture;
pub mod vec3;

pub use camera::Camera;
pub use config::ConfigError;
pub use fx::Fx;
pub use image::{Image, Pixel};
pub use material::Material;
pub use mesh::{Mesh, Trig};
pub use object::{HitRecord, Hittable};
pub use ray::Ray;
pub use rng::{random, Rng};
pub use scene::{RenderOptions, Scene};
pub use texture::Texture;
pub use vec3::{Color, Point, Vec3};
