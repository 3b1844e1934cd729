//! Native ABI schema validation and rendering, plus the value-level contracts
//! of the safe Native operating-system bindings.

pub mod schema;
pub mod text;
pub mod validate;
pub mod calls;
pub mod render;
pub mod render_rust;
pub mod render_c;
pub mod describe;
pub mod reference;
pub mod generator;
pub mod abi;
pub mod os;
