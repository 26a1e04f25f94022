//! A reflection layer: values are read, cloned and patched through a
//! uniform, type-erased interface, with a fixed numeric coercion table.
use vstd::prelude::*;

pub mod value;
pub mod property;
pub mod integer;
pub mod scalar;
pub mod list;
pub mod deque;
pub mod coercion;
pub mod texture;

pub use coercion::{coercion, Coercion, ValueKind};
pub use property::{collect_props, Properties, Property, PropertyIter, SeqSerializer, Serializable};
pub use texture::{Extent3d, Texture, TextureDescriptor, TextureDimension, TextureFormat, TextureUsage};
pub use value::{PropertiesType, PropertyError, Value};

verus! {

} // verus!
