use throw_overlay::com::RefLedger;
use throw_overlay::compositor::{
    create_device_and_context, render, setup_render_world, FrameCompositor, FramePhase,
    RenderContext, RenderTargetTexture,
};
use throw_overlay::coords::PixelVec;
use throw_overlay::error::RenderError;
use throw_overlay::ingest::{IngestQueue, QueuedItemDefinition, TextureData};
use throw_overlay::item::ItemDataBuffer;
use throw_overlay::pipeline::{
    select_sampler, ItemRenderContext, ItemShader, SamplerKind, SamplerState, WorldRenderContext,
};

const TEXTURE_RAW: usize = 0x100;
const SRV_RAW: usize = 0x101;

fn build_compositor() -> FrameCompositor {
    let mut ledger = RefLedger::new();
    let (device, ctx) = create_device_and_context(&mut ledger, 0x10, 0x11).unwrap();
    let rtv = RenderTargetTexture::create(&mut ledger, 0x12, 0x13).unwrap();
    let world =
        WorldRenderContext::create(&mut ledger, PixelVec { x: 1920, y: 1080 }, 0x14).unwrap();
    let item = ItemRenderContext::create(
        &mut ledger,
        0x20,
        0x21,
        0x22,
        0x23,
        0x24,
        0x25,
        0x26,
        0x27,
    )
    .unwrap();
    let rc = RenderContext::create(device, ctx, rtv, world, item);
    FrameCompositor::new(rc, ledger, 30)
}

fn request(pixelate: bool) -> QueuedItemDefinition {
    QueuedItemDefinition {
        texture_data: TextureData { buffer: vec![0u8; 4 * 100 * 100], width: 100, height: 100 },
        pixelate,
        scale: 1_000_000,
    }
}

fn promote(c: &mut FrameCompositor, pixelate: bool, duration: u32, now: u64) {
    c.promote_item(
        request(pixelate),
        TEXTURE_RAW,
        SRV_RAW,
        PixelVec { x: 0, y: 0 },
        PixelVec { x: 960, y: 540 },
        5000,
        duration,
        now,
    )
    .unwrap();
}

#[test]
fn full_frame_cycle_draws_a_live_item() {
    let mut c = build_compositor();
    assert_eq!(c.phase, FramePhase::Idle);

    setup_render_world(&mut c);
    assert_eq!(c.phase, FramePhase::Bound);
    assert!(c.bindings.render_target);
    assert!(c.bindings.viewport);
    assert!(c.bindings.blend);
    assert!(c.bindings.shader);
    assert!(c.bindings.geometry);
    assert!(c.bindings.constants);

    c.clear();
    let mut queue = IngestQueue::new();
    let batch = c.drain_queue(&mut queue);
    assert!(batch.is_empty());

    promote(&mut c, false, 1000, 0);
    assert_eq!(c.items.len(), 1);
    assert_eq!(c.ledger.count_of(TEXTURE_RAW), 1);
    assert_eq!(c.ledger.count_of(SRV_RAW), 1);

    let calls = render(&mut c, 500);
    assert_eq!(c.phase, FramePhase::Drawn);
    assert_eq!(calls.len(), 1);
    assert_eq!(calls[0].sampler, SamplerKind::Linear);
    assert_eq!(calls[0].item_data.elapsed_time, 500);
    assert_eq!(calls[0].item_data.duration, 1000);
    assert_eq!(calls[0].item_data.start_x, -1_000_000);
    assert_eq!(calls[0].item_data.start_y, 1_000_000);
    assert_eq!(calls[0].item_data.end_x, 0);
    assert_eq!(calls[0].item_data.end_y, 0);
    assert_eq!(calls[0].srv_addr, SRV_RAW);
    assert_eq!(c.items.len(), 1);

    c.publish(true).unwrap();
    assert_eq!(c.phase, FramePhase::Published);
    let sleep = c.pace(10_000);
    assert_eq!(c.phase, FramePhase::Bound);
    assert_eq!(sleep, 23_333);
}

#[test]
fn expired_item_is_excluded_and_its_handles_released() {
    let mut c = build_compositor();
    setup_render_world(&mut c);
    c.clear();
    let mut queue = IngestQueue::new();
    c.drain_queue(&mut queue);

    promote(&mut c, false, 1000, 0);
    assert_eq!(c.ledger.count_of(TEXTURE_RAW), 1);
    assert_eq!(c.ledger.count_of(SRV_RAW), 1);

    // Well past the duration: the item is expired, excluded from the draw
    // pass, and its native objects are no longer owned.
    let calls = render(&mut c, 2000);
    assert!(calls.is_empty());
    assert_eq!(c.items.len(), 0);
    assert_eq!(c.ledger.count_of(TEXTURE_RAW), 0);
    assert_eq!(c.ledger.count_of(SRV_RAW), 0);
}

#[test]
fn pixelated_item_selects_the_nearest_sampler() {
    let mut c = build_compositor();
    setup_render_world(&mut c);
    c.clear();
    let mut queue = IngestQueue::new();
    c.drain_queue(&mut queue);
    promote(&mut c, true, 1000, 0);

    let calls = render(&mut c, 100);
    assert_eq!(calls.len(), 1);
    assert_eq!(calls[0].sampler, SamplerKind::Pixelate);

    assert_eq!(select_sampler(true), SamplerKind::Pixelate);
    assert_eq!(select_sampler(false), SamplerKind::Linear);
}

#[test]
fn rejected_publish_surfaces_publish_error() {
    let mut c = build_compositor();
    setup_render_world(&mut c);
    c.clear();
    let mut queue = IngestQueue::new();
    c.drain_queue(&mut queue);
    let calls = render(&mut c, 0);
    assert!(calls.is_empty());
    let r = c.publish(false);
    assert!(matches!(r, Err(RenderError::PublishError)));
    // The failure is fatal to the iteration, not to the compositor: the
    // next frame proceeds.
    assert_eq!(c.phase, FramePhase::Published);
    let sleep = c.pace(50_000);
    assert_eq!(sleep, 0);
    assert_eq!(c.phase, FramePhase::Bound);
}

#[test]
fn promotion_with_null_resources_is_rejected() {
    let mut c = build_compositor();
    setup_render_world(&mut c);
    c.clear();
    let mut queue = IngestQueue::new();
    c.drain_queue(&mut queue);

    let r = c.promote_item(
        request(false),
        0,
        SRV_RAW,
        PixelVec { x: 0, y: 0 },
        PixelVec { x: 960, y: 540 },
        5000,
        1000,
        0,
    );
    assert!(matches!(r, Err(RenderError::ResourceCreationFailed)));
    assert_eq!(c.items.len(), 0);
    assert_eq!(c.ledger.count_of(SRV_RAW), 0);
}

#[test]
fn promotion_with_short_pixel_buffer_is_rejected() {
    let mut c = build_compositor();
    setup_render_world(&mut c);
    c.clear();
    let mut queue = IngestQueue::new();
    c.drain_queue(&mut queue);

    let malformed = QueuedItemDefinition {
        texture_data: TextureData { buffer: vec![0u8; 7], width: 100, height: 100 },
        pixelate: false,
        scale: 1_000_000,
    };
    let r = c.promote_item(
        malformed,
        TEXTURE_RAW,
        SRV_RAW,
        PixelVec { x: 0, y: 0 },
        PixelVec { x: 960, y: 540 },
        5000,
        1000,
        0,
    );
    assert!(matches!(r, Err(RenderError::ResourceCreationFailed)));
    assert_eq!(c.items.len(), 0);
    assert_eq!(c.ledger.count_of(TEXTURE_RAW), 0);
}

#[test]
fn null_device_pair_is_device_creation_failed() {
    let mut ledger = RefLedger::new();
    let r = create_device_and_context(&mut ledger, 0, 0x11);
    assert!(matches!(r, Err(RenderError::DeviceCreationFailed)));
    assert_eq!(ledger.count_of(0x11), 0);
}

#[test]
fn null_surface_is_resource_creation_failed() {
    let mut ledger = RefLedger::new();
    let r = RenderTargetTexture::create(&mut ledger, 0x12, 0);
    assert!(matches!(r, Err(RenderError::ResourceCreationFailed)));
    assert_eq!(ledger.count_of(0x12), 0);
}

#[test]
fn null_shader_is_shader_compilation_failed() {
    let mut ledger = RefLedger::new();
    let r = ItemShader::create(&mut ledger, 0x30, 0, 0x32);
    assert!(matches!(r, Err(RenderError::ShaderCompilationFailed)));
    assert_eq!(ledger.count_of(0x30), 0);
    assert_eq!(ledger.count_of(0x32), 0);
}

#[test]
fn null_sampler_is_resource_creation_failed() {
    let mut ledger = RefLedger::new();
    let r = SamplerState::linear(&mut ledger, 0);
    assert!(matches!(r, Err(RenderError::ResourceCreationFailed)));
    let ok = SamplerState::pixelate(&mut ledger, 0x40).unwrap();
    assert_eq!(ok.kind, SamplerKind::Pixelate);
}

#[test]
fn overran_frame_budget_sleeps_zero() {
    let mut c = build_compositor();
    setup_render_world(&mut c);
    c.clear();
    let mut queue = IngestQueue::new();
    c.drain_queue(&mut queue);
    render(&mut c, 0);
    c.publish(true).unwrap();
    // 33,333 us budget at 30 fps, 40 ms of work: no negative sleep.
    assert_eq!(c.pace(40_000), 0);
}

#[test]
fn drain_carries_requests_into_the_frame() {
    let mut c = build_compositor();
    setup_render_world(&mut c);
    c.clear();
    let mut queue = IngestQueue::new();
    queue.push(request(false));
    queue.push(request(true));
    let batch = c.drain_queue(&mut queue);
    assert_eq!(batch.len(), 2);
    assert_eq!(c.phase, FramePhase::Drained);
    assert!(queue.pop().is_none());
}

#[test]
fn encoded_block_of_a_drawn_item_is_upload_ready() {
    let mut c = build_compositor();
    setup_render_world(&mut c);
    c.clear();
    let mut queue = IngestQueue::new();
    c.drain_queue(&mut queue);
    promote(&mut c, false, 1000, 0);
    let calls = render(&mut c, 250);
    let bytes: Vec<u8> = calls[0].item_data.encode();
    assert_eq!(bytes.len() % 16, 0);
    let expected: ItemDataBuffer = calls[0].item_data;
    assert_eq!(&bytes[36..40], &expected.elapsed_time.to_le_bytes());
}
