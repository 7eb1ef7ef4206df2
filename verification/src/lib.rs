use vstd::prelude::*;

pub mod hardware;
pub mod host_multimedia;
pub mod memo;
pub mod systems;
pub mod utilities;
pub mod virtual_memory;

verus! {

} // verus!
