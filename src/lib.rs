//! A minimal model of physical particles: a capability shared by every
//! particle-like type (a standardized symbol and a creation time), and the
//! proton as its one implementer.
pub mod particle;
pub mod proton;

pub use particle::Particle;
pub use proton::Proton;
