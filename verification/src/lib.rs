//! Relay global object identification: opaque identifiers that carry a type tag
//! and a 128-bit key, and the dispatch of such identifiers to the type that owns
//! them.

pub mod codec;
pub mod dispatch;
pub mod global_id;
pub mod key;
pub mod registry;
pub mod text;
pub mod transport;

pub use codec::{from_global_id, to_global_id, DecodeError};
pub use dispatch::{
    conclude, fetch_node, fetch_nodes, fetch_nodes_detailed, optional_nodes, route, DispatchError,
    Route,
};
pub use global_id::{GlobalId, NamedNode, ScalarError, ScalarValue};
pub use registry::Registry;
