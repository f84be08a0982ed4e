//! The model table's tagged layer and the boundary entry points shared by
//! every pipeline adapter.
//!
//! Each adapter stores its model in the model table tagged with the kind it
//! was created as, and every access states the kind it expects; an access
//! whose expectation differs from the stored tag fails `TypeMismatch` and
//! leaves the entry untouched.

use vstd::prelude::*;

use crate::channel::Channel;
use crate::errors::BertError;
use crate::exec;
use crate::table::{allocate_post, ResourceTable};

verus! {

/// The kinds of model a model table may hold, one per pipeline capability.
#[derive(Clone, Copy, Debug, PartialEq, Eq, Structural)]
pub enum ModelKind {
    Translation,
    QuestionAnswering,
    NamedEntityRecognition,
    Sentiment,
    Conversation,
    Summarization,
    TextGeneration,
    ZeroShotClassification,
    PartOfSpeech,
}

/// A model value paired with the kind it was created as. The model itself is
/// opaque to the table; the tag is what every access is checked against.
pub struct TaggedModel<M> {
    pub kind: ModelKind,
    pub model: M,
}

impl<M> ResourceTable<TaggedModel<M>> {
    /// Hand the model stored under `rid` to `operation` under exclusive
    /// access, provided its tag equals `expected`; store the model the
    /// operation gives back under the same tag and return its result. Fail
    /// `NotFound` if the handle is absent and `TypeMismatch` — with the entry
    /// untouched — if the tag differs.
    pub fn with_model_access<R, F: FnOnce(M) -> (M, Result<R, BertError>)>(
        &mut self,
        rid: usize,
        expected: ModelKind,
        operation: F,
    ) -> (r: Result<R, BertError>)
        requires
            old(self).wf(),
            forall|m: M| call_requires(operation, (m,)),
        ensures
            final(self).wf(),
            final(self).next_handle() == old(self).next_handle(),
            !old(self).contents().dom().contains(rid) ==> r == Err::<R, BertError>(
                BertError::NotFound,
            ) && final(self).contents() == old(self).contents(),
            old(self).contents().dom().contains(rid) && old(self).contents()[rid].kind != expected
                ==> r == Err::<R, BertError>(BertError::TypeMismatch) && final(self).contents()
                == old(self).contents(),
            old(self).contents().dom().contains(rid) && old(self).contents()[rid].kind == expected
                ==> exists|out: (M, Result<R, BertError>)|
                {
                    &&& #[trigger] call_ensures(operation, (old(self).contents()[rid].model,), out)
                    &&& final(self).contents() == old(self).contents().insert(
                        rid,
                        TaggedModel { kind: expected, model: out.0 },
                    )
                    &&& r == out.1
                },
    {
        match self.take(rid) {
            None => Err(BertError::NotFound),
            Some(entry) => {
                if entry.kind == expected {
                    let (m2, res) = operation(entry.model);
                    proof {
                        assert(old(self).contents().remove(rid).insert(
                            rid,
                            TaggedModel { kind: expected, model: m2 },
                        ) =~= old(self).contents().insert(
                            rid,
                            TaggedModel { kind: expected, model: m2 },
                        ));
                    }
                    self.put_back(rid, TaggedModel { kind: expected, model: m2 });
                    res
                } else {
                    proof {
                        assert(old(self).contents().remove(rid).insert(rid, entry) =~= old(
                            self,
                        ).contents());
                    }
                    self.put_back(rid, entry);
                    Err(BertError::TypeMismatch)
                }
            },
        }
    }
}

/// Register a freshly created resource: store it in its table and report the
/// new handle as the boundary call's scalar result, or route the creation
/// failure into the error slot and report the sentinel `-1`.
pub fn register_resource<T>(
    table: &mut ResourceTable<T>,
    channel: &mut Channel,
    loaded: Result<T, BertError>,
) -> (code: isize)
    requires
        old(table).wf(),
        old(table).next_handle() <= isize::MAX as usize,
    ensures
        final(table).wf(),
        match loaded {
            Ok(resource) => {
                &&& code == old(table).next_handle() as isize
                &&& allocate_post(*old(table), resource, *final(table), code as usize)
                &&& *final(channel) == *old(channel)
            },
            Err(e) => {
                &&& code == -1
                &&& *final(table) == *old(table)
                &&& final(channel).error@ == e.message()
                &&& final(channel).result@ == old(channel).result@
            },
        },
{
    match loaded {
        Ok(resource) => {
            let h = table.allocate(resource);
            exec(channel, Ok(h as isize))
        },
        Err(e) => exec(channel, Err(e)),
    }
}

/// Register a freshly created model under the kind it was created as.
pub fn register_model<M>(
    table: &mut ResourceTable<TaggedModel<M>>,
    channel: &mut Channel,
    kind: ModelKind,
    loaded: Result<M, BertError>,
) -> (code: isize)
    requires
        old(table).wf(),
        old(table).next_handle() <= isize::MAX as usize,
    ensures
        final(table).wf(),
        match loaded {
            Ok(model) => {
                &&& code == old(table).next_handle() as isize
                &&& allocate_post(
                    *old(table),
                    TaggedModel { kind, model },
                    *final(table),
                    code as usize,
                )
                &&& *final(channel) == *old(channel)
            },
            Err(e) => {
                &&& code == -1
                &&& *final(table) == *old(table)
                &&& final(channel).error@ == e.message()
                &&& final(channel).result@ == old(channel).result@
            },
        },
{
    match loaded {
        Ok(model) => register_resource(table, channel, Ok(TaggedModel { kind, model })),
        Err(e) => register_resource(table, channel, Err(e)),
    }
}

/// The per-category deletion entry point: remove the entry under `rid` and
/// report `0`, or `-1` if the handle was unknown. The removed resource is
/// dropped.
pub fn delete_model<T>(table: &mut ResourceTable<T>, rid: usize) -> (code: i32)
    requires
        old(table).wf(),
    ensures
        final(table).wf(),
        final(table).next_handle() == old(table).next_handle(),
        old(table).contents().dom().contains(rid) ==> code == 0 && final(table).contents() == old(
            table,
        ).contents().remove(rid),
        !old(table).contents().dom().contains(rid) ==> code == -1 && final(table).contents() == old(
            table,
        ).contents(),
{
    match table.deallocate(rid) {
        Ok(_) => 0,
        Err(_) => -1,
    }
}

/// Tag enforcement: an entry allocated under kind `kind` answers an access
/// that expects a different kind with `TypeMismatch` — per the contract of
/// `with_model_access`, which also leaves the table unchanged in that case —
/// while the entry keeps its tag, so an access expecting `kind` still
/// reaches it.
pub proof fn lemma_tag_enforcement<M>(
    t0: ResourceTable<TaggedModel<M>>,
    kind: ModelKind,
    m: M,
    t1: ResourceTable<TaggedModel<M>>,
    h: usize,
    expected: ModelKind,
)
    requires
        allocate_post(t0, TaggedModel { kind, model: m }, t1, h),
        expected != kind,
    ensures
        t1.contents().dom().contains(h),
        t1.contents()[h].kind == kind,
        t1.contents()[h].kind != expected,
{
}

} // verus!
