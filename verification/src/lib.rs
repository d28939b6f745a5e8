//! Hand-tracked grab-and-hold interaction for a two-handled folding panel.
//!
//! The library holds the per-frame logic of the interaction: the grab
//! detector that picks at most one holding input source per handle, the
//! grip-frame estimator that turns four knuckle positions into a stable
//! grip frame, and the dual-handle pose solver that derives each handle's
//! pose for the frame.  Geometry is carried in fixed-point integer
//! coordinates (one unit is a tenth of a millimetre); the embedding
//! application converts to and from the scene graph's floating-point
//! vectors at the edge and performs the scene-graph writes that the
//! solver's results describe.

pub mod acceptor_relay;
pub mod grab;
pub mod handle;
pub mod phobetor;
pub mod vecmath;

pub use vecmath::Vec3;
