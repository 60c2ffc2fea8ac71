use vstd::prelude::*;

verus! {

/// The family of the configured output serializer, as far as size estimation
/// needs to know it.
#[derive(Clone, Copy, Debug, PartialEq, Eq, Structural)]
pub enum SerializerKind {
    Json,
    NativeJson,
    Other,
}

/// The two size estimates that an event offers.
#[derive(Clone, Copy, Debug, PartialEq, Eq, Structural)]
pub struct EventSizes {
    /// Estimated size of the event once encoded as JSON.
    pub json_encoded: usize,
    /// Generic in-memory size of the event.
    pub in_memory: usize,
}

/// Per-item size estimator used by the batcher.
#[derive(Clone, Copy, Debug, PartialEq, Eq, Structural)]
pub struct BatchSizer {
    pub serializer: SerializerKind,
}

impl SerializerKind {
    pub open spec fn is_json_family(self) -> bool {
        self == SerializerKind::Json || self == SerializerKind::NativeJson
    }
}

impl BatchSizer {
    /// The size that the policy assigns to one event.
    pub open spec fn size_spec(self, sizes: EventSizes) -> usize {
        if self.serializer.is_json_family() {
            sizes.json_encoded
        } else {
            sizes.in_memory
        }
    }

    /// JSON-family serializers count an event by its JSON-encoded size, all
    /// others by its in-memory size.
    pub fn estimated_size_of(&self, sizes: &EventSizes) -> (r: usize)
        ensures
            r == self.size_spec(*sizes),
    {
        match self.serializer {
            SerializerKind::Json | SerializerKind::NativeJson => sizes.json_encoded,
            SerializerKind::Other => sizes.in_memory,
        }
    }
}

} // verus!
