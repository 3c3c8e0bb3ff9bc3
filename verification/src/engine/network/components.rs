use vstd::prelude::*;

verus! {

/// Marker for a player that is shared over the network.
#[derive(Clone, Copy, Debug, PartialEq, Eq, Structural)]
pub struct Player;

} // verus!
