//! Request shapes accepted by the surrounding application's endpoints.

use crate::models::SearchParams;
use vstd::prelude::*;

verus! {

/// Query for the models offered under one make.
#[derive(Debug, Clone)]
pub struct ModelsQuery {
    pub make: String,
}

/// Query for the trims offered under one make and model.
#[derive(Debug, Clone)]
pub struct TrimsQuery {
    pub make: String,
    pub model: String,
}

/// Query for the colours offered under one make, model and optional trim.
#[derive(Debug, Clone)]
pub struct ColorsQuery {
    pub make: String,
    pub model: String,
    pub trim: Option<String>,
}

/// Request to save a named search for later reuse.
#[derive(Debug, Clone)]
pub struct SavePayloadRequest {
    pub name: String,
    pub params: SearchParams,
}

} // verus!
