//! Everything about bindings under one path: the catalog, the payloads, the
//! registries and the policy that resolves a parameter.

pub use crate::arguments::{Argument, Value};
pub use crate::binding::{Binding, Kind};
pub use crate::descriptor::Field;
pub use crate::direction::Direction;
pub use crate::payloads::{
    Blob, BlobTrigger, EventGridTrigger, EventHub, EventHubTrigger, Http, HttpTrigger, Queue,
    QueueTrigger, Table, TimerTrigger,
};
pub use crate::registry::Registry;
pub use crate::resolution::{Fault, Registries, ResolutionError, Usage};
pub use crate::synthesis::SynthesisError;
