//! The model registry: string-keyed model descriptions queued for
//! loading, worked off a bounded amount per frame. The caller parses the
//! model file and builds its buffers; the registry decides what to load
//! next and when everything is ready.

use vstd::prelude::*;

verus! {

/// Where a model's data and its texture come from.
#[allow(non_camel_case_types)]
pub struct Model_Info {
    pub location: String,
    pub texture: String,
}

/// The ghost image of one queued model.
pub struct ModelView {
    pub reference: Seq<char>,
    pub location: Seq<char>,
    pub texture: Seq<char>,
}

pub open spec fn model_view(reference: String, info: Model_Info) -> ModelView {
    ModelView { reference: reference@, location: info.location@, texture: info.texture@ }
}

/// Queued model descriptions, loaded front to back; `ready` once the
/// queue has drained.
pub struct ModelRegistry {
    pending: Vec<(String, Model_Info)>,
    ready: bool,
}

impl ModelRegistry {
    pub closed spec fn spec_pending(self) -> Seq<ModelView> {
        self.pending@.map_values(|p: (String, Model_Info)| model_view(p.0, p.1))
    }

    pub closed spec fn spec_ready(self) -> bool {
        self.ready
    }

    pub fn new() -> (r: ModelRegistry)
        ensures
            r.spec_pending() == Seq::<ModelView>::empty(),
            !r.spec_ready(),
    {
        let r = ModelRegistry { pending: Vec::new(), ready: false };
        proof {
            assert(r.spec_pending() =~= Seq::<ModelView>::empty());
        }
        r
    }

    /// Queue a model for loading; loading is deferred until the load loop
    /// reaches it.
    pub fn add_model(&mut self, reference: String, location: String, texture: String)
        ensures
            final(self).spec_pending() == old(self).spec_pending().push(
                ModelView { reference: reference@, location: location@, texture: texture@ },
            ),
            !final(self).spec_ready(),
    {
        self.pending.push((reference, Model_Info { location, texture }));
        self.ready = false;
        proof {
            assert(self.spec_pending() =~= old(self).spec_pending().push(
                ModelView { reference: reference@, location: location@, texture: texture@ },
            ));
        }
    }

    /// One step of the budgeted load loop: hand out the next queued model,
    /// or report readiness once nothing is pending. The caller spends its
    /// per-frame time budget calling this until it chooses to stop.
    pub fn next_pending(&mut self) -> (r: Option<(String, Model_Info)>)
        ensures
            old(self).spec_pending().len() == 0 ==> r is None && final(self).spec_pending()
                == old(self).spec_pending() && final(self).spec_ready(),
            old(self).spec_pending().len() > 0 ==> ({
                &&& r matches Some(p) && model_view(p.0, p.1) == old(self).spec_pending()[0]
                &&& final(self).spec_pending() == old(self).spec_pending().drop_first()
                &&& final(self).spec_ready() == old(self).spec_ready()
            }),
    {
        if self.pending.len() == 0 {
            self.ready = true;
            return None;
        }
        let p = self.pending.remove(0);
        proof {
            assert(self.spec_pending() =~= old(self).spec_pending().drop_first());
        }
        Some(p)
    }

    /// Whether every queued model has been handed out and the registry has
    /// observed the empty queue.
    pub fn is_ready(&self) -> (r: bool)
        ensures
            r == self.spec_ready(),
    {
        self.ready
    }

    pub fn pending_count(&self) -> (r: usize)
        ensures
            r == self.spec_pending().len(),
    {
        self.pending.len()
    }
}

} // verus!
