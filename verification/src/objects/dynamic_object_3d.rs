//! A bag of scene nodes assembled at run time.

use vstd::prelude::*;

use crate::objects::Object;

verus! {

/// A collection of nodes gathered into one dynamic scene, ready to be
/// wrapped by a composition operator.
#[derive(Debug)]
pub struct DynamicObject3D {
    pub static_objects: Vec<Object>,
}

} // verus!
