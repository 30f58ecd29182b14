//! Model descriptors: the one record the registry and the persistent table hold.

use vstd::prelude::*;

verus! {

/// Abstract value of a [`ModelSpec`]: both fields as character sequences.
pub struct ModelSpecView {
    pub model_id: Seq<char>,
    pub model_type: Seq<char>,
}

/// Identifying record for one servable model. `model_id` is the unique key of
/// the persistent table; a descriptor is immutable once persisted (the store
/// only ever sees inserts, never updates).
#[derive(Debug, PartialEq, Eq)]
pub struct ModelSpec {
    pub model_id: String,
    pub model_type: String,
}

impl View for ModelSpec {
    type V = ModelSpecView;

    open spec fn view(&self) -> ModelSpecView {
        ModelSpecView { model_id: self.model_id@, model_type: self.model_type@ }
    }
}

impl Clone for ModelSpec {
    fn clone(&self) -> (r: Self)
        ensures
            r == *self,
    {
        ModelSpec { model_id: self.model_id.clone(), model_type: self.model_type.clone() }
    }
}

/// Abstract contents of a list of descriptors.
pub open spec fn models_view(s: Seq<ModelSpec>) -> Seq<ModelSpecView> {
    s.map_values(|m: ModelSpec| m@)
}

} // verus!
