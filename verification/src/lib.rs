//! Batched conversion of planar coordinates between coordinate reference
//! systems (UTM and Mercator) over a shared reference ellipsoid.
//!
//! Coordinate values are carried as the raw 64-bit encodings of
//! double-precision numbers; see `float_bits` for the bit-level model that
//! every decision in this crate is verified against.

pub mod coordinate_buf;
pub mod crs;
pub mod ellipsoid;
pub mod error;
pub mod float_bits;
pub mod lonlat_buf;
pub mod merc;
pub mod multithreading;
pub mod utm;

pub use coordinate_buf::CoordinateBuf;
pub use coordinate_buf::CoordinateSource;
pub use coordinate_buf::ProjectionPlan;
pub use crs::Crs;
pub use ellipsoid::Ellipsoid;
pub use ellipsoid::WGS84Ellipsoid;
pub use error::ProjectionError;
pub use lonlat_buf::LonLatBuf;
pub use merc::MercatorSystem;
pub use multithreading::MultithreadingStrategy;
pub use utm::UTMSystem;
pub use utm::get_utm_zone;
