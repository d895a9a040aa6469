//! Entity/component storage: a growable typed column and a sparse set that
//! maps entities to dense slots of such a column, with the small types the
//! game's systems share.
use vstd::prelude::*;

pub mod comp_data;
pub mod framework;
pub mod game;
pub mod id_index;
pub mod physics;
pub mod render;
pub mod timer;

verus! {

/// A message type of a system thread, which can always ask it to stop.
pub trait SystemMessage: Sized {
    /// The message that asks the system to stop.
    fn stop_msg() -> Self;

    /// The system's name, for logs.
    fn system_name() -> &'static str;
}

} // verus!
