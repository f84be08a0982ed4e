//! Tests of the resource tables, the channel protocol, and the call wrapper.

use bert_bridge::channel::Channel;
use bert_bridge::context::BertContext;
use bert_bridge::errors::BertError;
use bert_bridge::exec;
use bert_bridge::models::{register_model, register_resource, delete_model, ModelKind, TaggedModel};
use bert_bridge::set_result;
use bert_bridge::table::ResourceTable;

#[test]
fn it_works() {
    let result = 2 + 2;
    assert_eq!(result, 4);
}

#[test]
fn handle_monotonicity() {
    let mut t: ResourceTable<String> = ResourceTable::new();
    let h0 = t.allocate(String::from("a"));
    let h1 = t.allocate(String::from("b"));
    assert_eq!(h0, 0);
    assert_eq!(h1, 1);
    assert_eq!(t.deallocate(h0).unwrap(), "a");
    assert_eq!(t.deallocate(h1).unwrap(), "b");
    // Handles keep increasing and are never reissued, even though both
    // earlier entries are gone.
    let h2 = t.allocate(String::from("c"));
    assert_eq!(h2, 2);
    assert_eq!(t.counter(), 3);
}

#[test]
fn post_deallocate_access_fails_not_found() {
    let mut t: ResourceTable<u64> = ResourceTable::new();
    let h = t.allocate(42);
    assert_eq!(t.deallocate(h), Ok(42));
    let r = t.with_access(h, |v: u64| (v, Ok(v)));
    assert_eq!(r, Err(BertError::NotFound));
    assert_eq!(t.deallocate(h), Err(BertError::NotFound));
}

#[test]
fn with_access_runs_operation_and_stores_update() {
    let mut t: ResourceTable<u64> = ResourceTable::new();
    let h = t.allocate(10);
    let r = t.with_access(h, |v: u64| (v + 1, Ok(v)));
    assert_eq!(r, Ok(10));
    // The updated resource was stored back in place.
    assert_eq!(t.deallocate(h), Ok(11));
}

#[test]
fn failed_operation_leaves_entry_live() {
    let mut t: ResourceTable<u64> = ResourceTable::new();
    let h = t.allocate(10);
    let r: Result<u64, BertError> = t.with_access(h, |v: u64| {
        (v, Err(BertError::Upstream { message: b"boom".to_vec() }))
    });
    assert_eq!(r, Err(BertError::Upstream { message: b"boom".to_vec() }));
    // The entry survives the failed operation.
    assert_eq!(t.deallocate(h), Ok(10));
}

#[test]
fn with_access_unknown_handle_fails_not_found() {
    let mut t: ResourceTable<u64> = ResourceTable::new();
    let r = t.with_access(7, |v: u64| (v, Ok(v)));
    assert_eq!(r, Err(BertError::NotFound));
}

#[test]
fn tag_mismatch_fails_and_leaves_entry_retrievable() {
    let mut t: ResourceTable<TaggedModel<String>> = ResourceTable::new();
    let h = t.allocate(TaggedModel {
        kind: ModelKind::Sentiment,
        model: String::from("sentiment weights"),
    });
    let wrong = t.with_model_access(h, ModelKind::NamedEntityRecognition, |m: String| {
        (m, Ok(0usize))
    });
    assert_eq!(wrong, Err(BertError::TypeMismatch));
    // The entry is untouched and still answers under its real kind.
    let right = t.with_model_access(h, ModelKind::Sentiment, |m: String| {
        let n = m.len();
        (m, Ok(n))
    });
    assert_eq!(right, Ok("sentiment weights".len()));
}

#[test]
fn result_single_read() {
    let mut c = Channel::new();
    let n = set_result(&mut c, b"hello".to_vec());
    assert_eq!(n, 5);
    let mut buf = vec![0u8; n];
    c.fill_result(&mut buf);
    assert_eq!(buf, b"hello".to_vec());
    // A second drain before any new store yields an empty buffer.
    let mut buf2: Vec<u8> = Vec::new();
    c.fill_result(&mut buf2);
    assert!(buf2.is_empty());
}

#[test]
fn error_round_trip() {
    let mut c = Channel::new();
    let code = exec(
        &mut c,
        Err(BertError::Upstream { message: b"boom".to_vec() }),
    );
    assert_eq!(code, -1);
    let len = c.error_len();
    assert_eq!(len, 4);
    let mut buf = vec![0u8; len];
    c.fill_error(&mut buf);
    assert_eq!(buf, b"boom".to_vec());
    assert_eq!(c.error_len(), 0);
}

#[test]
fn concurrent_allocation_contiguous() {
    // The table serializes allocations under its exclusive access; a burst
    // of K allocations with no interleaved deallocation yields K distinct,
    // contiguous handles.
    let mut t: ResourceTable<usize> = ResourceTable::new();
    let k = 8;
    let mut handles = Vec::new();
    for i in 0..k {
        handles.push(t.allocate(i));
    }
    for (i, h) in handles.iter().enumerate() {
        assert_eq!(*h, i);
    }
}

#[test]
fn end_to_end_scenario() {
    let mut ctx: BertContext<String, String, String> = BertContext::new();
    let c0 = register_model(
        &mut ctx.models,
        &mut ctx.channel,
        ModelKind::Sentiment,
        Ok(String::from("sentiment model")),
    );
    assert_eq!(c0, 0);
    let c1 = register_model(
        &mut ctx.models,
        &mut ctx.channel,
        ModelKind::NamedEntityRecognition,
        Ok(String::from("ner model")),
    );
    assert_eq!(c1, 1);
    let ok = ctx
        .models
        .with_model_access(0, ModelKind::Sentiment, |m: String| (m, Ok(())));
    assert_eq!(ok, Ok(()));
    let mismatch = ctx
        .models
        .with_model_access(0, ModelKind::NamedEntityRecognition, |m: String| (m, Ok(())));
    assert_eq!(mismatch, Err(BertError::TypeMismatch));
    let removed = ctx.models.deallocate(0).unwrap();
    assert_eq!(removed.model, "sentiment model");
    let gone = ctx
        .models
        .with_model_access(0, ModelKind::Sentiment, |m: String| (m, Ok(())));
    assert_eq!(gone, Err(BertError::NotFound));
    // Handle 0 is never reissued: a fresh allocation gets handle 2.
    let c2 = register_model(
        &mut ctx.models,
        &mut ctx.channel,
        ModelKind::Summarization,
        Ok(String::from("summarization model")),
    );
    assert_eq!(c2, 2);
}

#[test]
fn register_model_failure_reports_error() {
    let mut ctx: BertContext<String, String, String> = BertContext::new();
    let code = register_model(
        &mut ctx.models,
        &mut ctx.channel,
        ModelKind::Sentiment,
        Err(BertError::Upstream { message: b"Failed to load sentiment model.".to_vec() }),
    );
    assert_eq!(code, -1);
    let len = ctx.channel.error_len();
    let mut buf = vec![0u8; len];
    ctx.channel.fill_error(&mut buf);
    assert_eq!(buf, b"Failed to load sentiment model.".to_vec());
    // Nothing was allocated.
    assert_eq!(ctx.models.counter(), 0);
}

#[test]
fn register_resource_issues_handles() {
    let mut ctx: BertContext<String, String, String> = BertContext::new();
    let c0 = register_resource(
        &mut ctx.model_resources,
        &mut ctx.channel,
        Ok(String::from("conversation manager")),
    );
    assert_eq!(c0, 0);
    let c1 = register_resource(
        &mut ctx.model_resource_accessors,
        &mut ctx.channel,
        Ok(String::from("conversation id")),
    );
    assert_eq!(c1, 0);
}

#[test]
fn delete_model_reports_success_and_failure() {
    let mut t: ResourceTable<TaggedModel<String>> = ResourceTable::new();
    let h = t.allocate(TaggedModel { kind: ModelKind::Translation, model: String::from("m") });
    assert_eq!(delete_model(&mut t, h), 0);
    assert_eq!(delete_model(&mut t, h), -1);
    assert_eq!(delete_model(&mut t, 99), -1);
}

#[test]
fn exec_passes_success_scalar_through() {
    let mut c = Channel::new();
    assert_eq!(exec(&mut c, Ok(17)), 17);
    assert_eq!(c.error_len(), 0);
}

#[test]
fn not_found_renders_fixed_message() {
    let mut c = Channel::new();
    assert_eq!(exec(&mut c, Err(BertError::NotFound)), -1);
    let len = c.error_len();
    let mut buf = vec![0u8; len];
    c.fill_error(&mut buf);
    assert_eq!(buf, b"Failed to get resource with id.".to_vec());
}

#[test]
fn error_variants_render_expected_messages() {
    assert_eq!(
        BertError::TypeMismatch.render(),
        b"Unexpected resource kind at resource id.".to_vec()
    );
    assert_eq!(
        BertError::Deserialization.render(),
        b"Failed to parse request payload.".to_vec()
    );
    assert_eq!(BertError::LockPoisoned.render(), b"Lock poisoned.".to_vec());
    assert_eq!(
        BertError::Upstream { message: b"boom".to_vec() }.render(),
        b"boom".to_vec()
    );
}

#[test]
fn set_result_overwrites_previous_payload() {
    let mut c = Channel::new();
    set_result(&mut c, b"first".to_vec());
    let n = set_result(&mut c, b"second!".to_vec());
    assert_eq!(n, 7);
    let mut buf = vec![0u8; n];
    c.fill_result(&mut buf);
    assert_eq!(buf, b"second!".to_vec());
}
