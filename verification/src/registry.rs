//! The module decoder registry: which decoder reads the payload of an output module.

use crate::text::text_eq;
use vstd::prelude::*;

verus! {

/// The decoders that the registry knows, one for each payload schema.
#[derive(Clone, Copy, PartialEq, Eq, Structural, Debug)]
pub enum ModuleKind {
    /// The payload is a list of created pools.
    Pools,
    /// The payload is a list of events.
    Events,
}

/// The decoder registered for the module `name`. Several names may share one decoder.
pub open spec fn registered_decoder(name: Seq<char>) -> Option<ModuleKind> {
    if name == "map_pools_created"@ || name == "uni_v0_2_9:map_pools_created"@ {
        Some(ModuleKind::Pools)
    } else if name == "graph_out"@ || name == "uni_v0_2_9:graph_out"@ {
        Some(ModuleKind::Events)
    } else {
        None
    }
}

/// Looks a module name up in the registry.
pub fn lookup_decoder(name: &str) -> (kind: Option<ModuleKind>)
    ensures
        kind == registered_decoder(name@),
{
    if text_eq(name, "map_pools_created") || text_eq(name, "uni_v0_2_9:map_pools_created") {
        Some(ModuleKind::Pools)
    } else if text_eq(name, "graph_out") || text_eq(name, "uni_v0_2_9:graph_out") {
        Some(ModuleKind::Events)
    } else {
        None
    }
}

} // verus!
