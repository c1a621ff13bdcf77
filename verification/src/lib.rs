//! A typed command layer over the WebGL2 rendering API.
//!
//! Every state axis of the underlying API gets a closed enumeration whose
//! variants carry the numeric codes the external specification fixes
//! ([`glenum`]), so that passing a constant from the wrong axis is a type
//! error and no constant outside a declared variant set can be formed.  The
//! rendering context ([`rendering_context`]) models a live connection as the
//! exact sequence of wire-level calls it issues ([`call`]), in program
//! order, with server-side resources held as unforgeable handles
//! ([`handles`]); the contract of each method pins down the call it puts on
//! the wire, and queries consume raw replies from a store that the external
//! binding fills.  Bulk uploads go through one generic entry point per
//! capability ([`data_view`]), where the static element type alone selects
//! the type-specific raw operation and the element sequence is carried
//! verbatim.

pub mod call;
pub mod data_view;
pub mod glenum;
pub mod handles;
pub mod rendering_context;
