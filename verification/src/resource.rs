//! Kinds of environmental resources.

use vstd::prelude::*;

verus! {

/// Kinds of environmental resources creatures consume.
#[derive(Debug, Clone, Copy, PartialEq, Eq, Hash, Structural)]
pub enum ResourceType {
    Food,
    Water,
}

} // verus!
