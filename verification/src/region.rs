//! Declarative regions.
use vstd::prelude::*;
use std::sync::Arc;
use crate::named_entity::NamedEntity;

verus! {

/// A declarative region, such as the inside of a package or an entity,
/// with the named entities declared in it.
#[derive(Debug)]
pub struct Region {
    pub entities: Vec<Arc<NamedEntity>>,
}

} // verus!
