//! The handle through which live cells of the settlement layer are queried.

use vstd::prelude::*;

verus! {

/// Queries live cells of the settlement layer: deposit requests, the rollup cell
/// and cells that pay fees. The queries are network calls and live with the
/// caller; synchronisation needs none of them.
#[derive(Clone, Copy, Debug)]
pub struct CellCollector;

} // verus!
