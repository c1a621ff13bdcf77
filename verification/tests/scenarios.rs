//! Protocol scenarios: the occlusion-query poll loop and the sync-object
//! wait, driven by scripted replies standing for the external API.

use webgl2::call::Call;
use webgl2::call::Reply;
use webgl2::glenum::Error;
use webgl2::glenum::GPUState;
use webgl2::glenum::Primitives;
use webgl2::glenum::QueryTarget;
use webgl2::glenum::WaitStatus;
use webgl2::rendering_context::WebGL2RenderingContext;

#[test]
fn occlusion_query_poll_protocol() {
    let mut ctx = WebGL2RenderingContext::new();
    let q = ctx.create_query();
    ctx.begin_query(QueryTarget::AnySamplesPassed, &q);
    ctx.draw_arrays(Primitives::Triangles, 0, 3);
    ctx.end_query(QueryTarget::AnySamplesPassed);

    // The driver answers the status poll twice, then the result, then the
    // error poll.
    ctx.script_reply(Reply::Boolean(false));
    ctx.script_reply(Reply::Boolean(true));
    ctx.script_reply(Reply::Uint(17));
    ctx.script_reply(Reply::Uint(0));

    assert_eq!(ctx.get_query_status(&q), Some(false));
    assert_eq!(ctx.get_query_status(&q), Some(true));
    assert_eq!(ctx.get_query_result(&q), Some(17));
    assert_eq!(ctx.get_error(), Some(Error::NoError));

    assert_eq!(
        ctx.calls,
        vec![
            Call::CreateQuery { id: 0 },
            Call::BeginQuery { target: 0x8C2F, query: 0 },
            Call::DrawArrays { mode: 0x0004, first: 0, count: 3 },
            Call::EndQuery { target: 0x8C2F },
            Call::GetQueryParameter { query: 0, pname: 0x8867 },
            Call::GetQueryParameter { query: 0, pname: 0x8867 },
            Call::GetQueryParameter { query: 0, pname: 0x8866 },
            Call::GetError,
        ],
    );
}

#[test]
fn client_wait_sync_on_a_completed_sync_is_already_signaled() {
    let mut ctx = WebGL2RenderingContext::new();
    let s = ctx.fence_sync(GPUState::CommandsComplete, 0);
    ctx.finish();
    ctx.script_reply(Reply::Uint(0x911A));
    assert_eq!(ctx.client_wait_sync(&s, 0, 0), Some(WaitStatus::AlreadySignaled));
}

#[test]
fn client_wait_sync_with_zero_timeout_on_pending_work_expires() {
    let mut ctx = WebGL2RenderingContext::new();
    let s = ctx.fence_sync(GPUState::CommandsComplete, 0);
    ctx.draw_arrays(Primitives::Points, 0, 1);
    ctx.script_reply(Reply::Uint(0x911B));
    assert_eq!(ctx.client_wait_sync(&s, 0, 0), Some(WaitStatus::TimeoutExpired));
    assert_eq!(
        ctx.calls,
        vec![
            Call::FenceSync { conditions: 0x9117, flags: 0, id: 0 },
            Call::DrawArrays { mode: 0x0000, first: 0, count: 1 },
            Call::ClientWaitSync { sync: 0, flags: 0, timeout: 0 },
        ],
    );
}

#[test]
fn client_wait_sync_reports_all_four_outcomes() {
    let mut ctx = WebGL2RenderingContext::new();
    let s = ctx.fence_sync(GPUState::CommandsComplete, 0);
    for (code, status) in [
        (0x911A, WaitStatus::AlreadySignaled),
        (0x911B, WaitStatus::TimeoutExpired),
        (0x911C, WaitStatus::ConditionSatisfied),
        (0x911D, WaitStatus::WaitFailed),
    ] {
        ctx.script_reply(Reply::Uint(code));
        assert_eq!(ctx.client_wait_sync(&s, 0, 1000), Some(status));
    }
}

#[test]
fn sync_lifecycle_is_recorded_in_program_order() {
    let mut ctx = WebGL2RenderingContext::new();
    let s = ctx.fence_sync(GPUState::CommandsComplete, 0);
    ctx.script_reply(Reply::Boolean(true));
    assert_eq!(ctx.is_sync(&s), Some(true));
    ctx.wait_sync(&s, 0, -1);
    ctx.delete_sync(&s);
    assert_eq!(
        ctx.calls,
        vec![
            Call::FenceSync { conditions: 0x9117, flags: 0, id: 0 },
            Call::IsSync { sync: 0 },
            Call::WaitSync { sync: 0, flags: 0, timeout: -1 },
            Call::DeleteSync { sync: 0 },
        ],
    );
}

#[test]
fn creation_assigns_distinct_identifiers() {
    let mut ctx = WebGL2RenderingContext::new();
    let q1 = ctx.create_query();
    let q2 = ctx.create_query();
    let smp = ctx.create_sampler();
    let tf = ctx.create_transform_feedback();
    assert_eq!(q1.id(), 0);
    assert_eq!(q2.id(), 1);
    assert_eq!(smp.id(), 2);
    assert_eq!(tf.id(), 3);
    assert_ne!(q1, q2);
}
