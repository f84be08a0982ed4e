//! The explicit context object: one set of resource tables and one channel,
//! passed into every boundary entry point in place of process-wide globals.
//! This makes independent instances possible and keeps tests deterministic;
//! a host that shares one context across threads must serialize its boundary
//! calls around it.

use vstd::prelude::*;

use crate::channel::Channel;
use crate::models::TaggedModel;
use crate::table::ResourceTable;

verus! {

/// One table per resource category, plus the result/error channel.
///
/// `M` is the host's model type, `R` its manager-style resource type, and
/// `A` its sub-identifier resource type; all three are opaque to the tables.
pub struct BertContext<M, R, A> {
    /// Models, stored tagged with the kind they were created as.
    pub models: ResourceTable<TaggedModel<M>>,
    /// Manager-style resources that models operate through.
    pub model_resources: ResourceTable<R>,
    /// Sub-identifiers that address state inside a manager-style resource.
    pub model_resource_accessors: ResourceTable<A>,
    /// The result/error channel of this context's boundary.
    pub channel: Channel,
}

impl<M, R, A> BertContext<M, R, A> {
    /// All three tables satisfy their invariant.
    pub open spec fn wf(self) -> bool {
        &&& self.models.wf()
        &&& self.model_resources.wf()
        &&& self.model_resource_accessors.wf()
    }

    /// A fresh context: empty tables with counters at zero, empty channel.
    pub fn new() -> (ctx: BertContext<M, R, A>)
        ensures
            ctx.wf(),
            ctx.models.next_handle() == 0,
            ctx.models.contents() == Map::<usize, TaggedModel<M>>::empty(),
            ctx.model_resources.next_handle() == 0,
            ctx.model_resources.contents() == Map::<usize, R>::empty(),
            ctx.model_resource_accessors.next_handle() == 0,
            ctx.model_resource_accessors.contents() == Map::<usize, A>::empty(),
            ctx.channel.result@ == Seq::<u8>::empty(),
            ctx.channel.error@ == Seq::<u8>::empty(),
    {
        BertContext {
            models: ResourceTable::new(),
            model_resources: ResourceTable::new(),
            model_resource_accessors: ResourceTable::new(),
            channel: Channel::new(),
        }
    }
}

} // verus!
