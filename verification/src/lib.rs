//! A retained-mode scene graph: a store of nodes addressed by counted
//! handles, a queue of deferred operations, and the pass that resolves
//! world-space visibility and transforms from parent to child.
//!
//! Client code holds handles ([`object::Object`]) and asks for changes, which
//! wait in the queue of the [`hub::Hub`]. Once per frame the owner of the hub
//! runs a pass ([`hub::Hub::resolve`]): the queue is drained in order, nodes
//! to which no reference is left are reclaimed, and every node that is alive
//! gets its place and its visibility in the world from its parent. A
//! [`scene::Scene`] lists the top-level nodes that are to be drawn, and a
//! [`guard::SyncGuard`] reads and searches the graph.
//!
//! Numbers with a fraction are carried as bit patterns ([`node::Scalar`]):
//! the graph never does arithmetic on them, and the composition of two
//! transforms is handed to the resolution pass as a function. What the
//! renderer holds for a node is named by number.
//!
//! The [`factory::Factory`] makes the nodes; with it stand what it takes
//! from file names ([`texture`], [`path`]) and from the morph targets of a
//! mesh ([`morph`]).
//!
//! The module [`laws`] states what holds across calls.

pub mod factory;
pub mod guard;
pub mod hub;
pub mod laws;
pub mod morph;
pub mod node;
pub mod object;
pub mod path;
pub mod scene;
pub mod store;
pub mod texture;
pub mod walk;
