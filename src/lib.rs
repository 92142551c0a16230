//! In-memory model of the structural shapes of an interface definition language:
//! services, operations and resources, whose members hold dynamically tagged values.

pub mod identity;
pub mod laws;
pub mod member;
pub mod services;
pub mod values;
