use vstd::prelude::*;

verus! {

/// How a node is checked: by probing its replicas over the network, or by
/// running its scripts.
#[derive(Debug, Clone, Copy, PartialEq, Eq, Structural)]
pub enum Mode {
    Poll,
    Script,
}

} // verus!
