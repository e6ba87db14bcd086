//! The per-frame loop: binding, clearing, draining the ingest queue,
//! promoting decoded textures into items, updating and drawing each item,
//! publishing the finished surface, and pacing to the target frame rate.
//!
//! The compositor has two steady states: `Idle` (no surface bound) and the
//! bound frame cycle `Clear -> DrainQueue -> Promote -> UpdateAndDraw ->
//! Publish -> Pace`. All state transitions happen on the single render
//! thread; the ingest queue is the only cross-thread boundary. A frame's
//! draw list reflects exactly the items alive when the frame's clear ran:
//! an expired item is excluded from the draw pass and its native handles are
//! released within the same frame.

use vstd::arithmetic::mul::lemma_mul_upper_bound;
use vstd::prelude::*;

use crate::com::{fresh_handles, released, ComPtr, RefLedger};
use crate::coords::PixelVec;
use crate::error::RenderError;
use crate::ingest::{batch_contents, IngestQueue, QueuedItemDefinition};
use crate::item::{item_block_spec, ItemDataBuffer, RenderItemDefinition};
use crate::pipeline::{BindingState, ItemRenderContext, SamplerKind, WorldRenderContext};

verus! {

/// The off-screen texture frames are drawn into, together with the
/// render-target view that makes it writable. The view describes the same
/// underlying memory as the texture; both are owned.
pub struct RenderTargetTexture {
    /// Owner of the texture object.
    pub texture: ComPtr,
    /// Owner of the render-target view over the texture.
    pub view: ComPtr,
}

impl RenderTargetTexture {
    /// Both handles are live owners of distinct native objects.
    pub open spec fn wf(self) -> bool {
        &&& self.texture.is_live()
        &&& self.view.is_live()
        &&& self.texture.addr() != self.view.addr()
    }

    /// Take ownership of a just-created render-target texture and its view.
    /// A null among the raw results means the native creation failed:
    /// nothing is acquired and construction short-circuits.
    pub fn create(ledger: &mut RefLedger, texture_raw: usize, view_raw: usize) -> (r: Result<
        RenderTargetTexture,
        RenderError,
    >)
        requires
            old(ledger).wf(),
            fresh_handles(old(ledger)@, seq![texture_raw, view_raw]),
        ensures
            final(ledger).wf(),
            match r {
                Ok(t) => {
                    &&& t.wf()
                    &&& t.texture.addr() == texture_raw
                    &&& t.view.addr() == view_raw
                    &&& final(ledger)@ == old(ledger)@.insert(texture_raw, 1u64).insert(
                        view_raw,
                        1u64,
                    )
                },
                Err(e) => {
                    &&& e == RenderError::ResourceCreationFailed
                    &&& (texture_raw == 0 || view_raw == 0)
                    &&& final(ledger)@ == old(ledger)@
                },
            },
    {
        proof {
            let raws = seq![texture_raw, view_raw];
            assert(raws[0] == texture_raw);
            assert(raws[1] == view_raw);
        }
        if texture_raw == 0 || view_raw == 0 {
            return Err(RenderError::ResourceCreationFailed);
        }
        ledger.track_new(texture_raw);
        let texture = ComPtr::new(texture_raw);
        ledger.track_new(view_raw);
        let view = ComPtr::new(view_raw);
        Ok(RenderTargetTexture { texture, view })
    }

    /// Bind this surface as the draw destination; exactly one surface is
    /// bound at a time.
    pub fn bind(&self, b: &mut BindingState)
        requires
            self.wf(),
        ensures
            *final(b) == (BindingState { render_target: true, ..*old(b) }),
    {
        b.render_target = true;
    }
}

/// Take ownership of a just-created device/context pair. A null among the
/// raw results means the native factory could not produce the pair: nothing
/// is acquired, and the failure is fatal to startup.
pub fn create_device_and_context(
    ledger: &mut RefLedger,
    device_raw: usize,
    context_raw: usize,
) -> (r: Result<(ComPtr, ComPtr), RenderError>)
    requires
        old(ledger).wf(),
        fresh_handles(old(ledger)@, seq![device_raw, context_raw]),
    ensures
        final(ledger).wf(),
        match r {
            Ok(pair) => {
                &&& pair.0.is_live()
                &&& pair.0.addr() == device_raw
                &&& pair.1.is_live()
                &&& pair.1.addr() == context_raw
                &&& final(ledger)@ == old(ledger)@.insert(device_raw, 1u64).insert(
                    context_raw,
                    1u64,
                )
            },
            Err(e) => {
                &&& e == RenderError::DeviceCreationFailed
                &&& (device_raw == 0 || context_raw == 0)
                &&& final(ledger)@ == old(ledger)@
            },
        },
{
    proof {
        let raws = seq![device_raw, context_raw];
        assert(raws[0] == device_raw);
        assert(raws[1] == context_raw);
    }
    if device_raw == 0 || context_raw == 0 {
        return Err(RenderError::DeviceCreationFailed);
    }
    ledger.track_new(device_raw);
    let device = ComPtr::new(device_raw);
    ledger.track_new(context_raw);
    let context = ComPtr::new(context_raw);
    Ok((device, context))
}

/// The complete rendering context: the process-wide device and immediate
/// context, the render surface, and the world- and item-level state.
pub struct RenderContext {
    /// Owner of the device object; created once per process.
    pub device: ComPtr,
    /// Owner of the immediate command context.
    pub ctx: ComPtr,
    /// The off-screen render surface.
    pub rtv: RenderTargetTexture,
    /// World-level state: surface size, viewport, blending.
    pub world: WorldRenderContext,
    /// Item-level shared pipeline state.
    pub item: ItemRenderContext,
}

impl RenderContext {
    /// Every component is well-formed and owned.
    pub open spec fn wf(self) -> bool {
        &&& self.device.is_live()
        &&& self.ctx.is_live()
        &&& self.rtv.wf()
        &&& self.world.wf()
        &&& self.item.wf()
    }

    /// Assemble the rendering context from its components, each already
    /// constructed against the ledger.
    pub fn create(
        device: ComPtr,
        ctx: ComPtr,
        rtv: RenderTargetTexture,
        world: WorldRenderContext,
        item: ItemRenderContext,
    ) -> (r: RenderContext)
        requires
            device.is_live(),
            ctx.is_live(),
            rtv.wf(),
            world.wf(),
            item.wf(),
        ensures
            r == (RenderContext { device, ctx, rtv, world, item }),
            r.wf(),
    {
        RenderContext { device, ctx, rtv, world, item }
    }
}

/// Where the compositor stands in its frame cycle.
#[derive(Clone, Copy, Debug, PartialEq, Eq, Structural)]
pub enum FramePhase {
    /// No surface is bound yet.
    Idle,
    /// Surface, viewport, blend state and shared pipeline state are bound.
    Bound,
    /// The frame's surface has been cleared.
    Cleared,
    /// The ingest queue has been drained for this frame; decoded textures
    /// may be promoted.
    Drained,
    /// Every live item has been updated and drawn.
    Drawn,
    /// The finished surface has been offered to the external consumer.
    Published,
}

/// One item's draw, as decided by the update pass: the constant block to
/// upload and the sampler variant to select before the indexed draw.
#[derive(Clone, Copy, Debug, PartialEq, Eq, Structural)]
pub struct DrawCall {
    /// The constant block for this item and frame.
    pub item_data: ItemDataBuffer,
    /// The sampler the item asks for.
    pub sampler: SamplerKind,
    /// Address of the item's shader-resource view, bound for this draw.
    pub srv_addr: usize,
}

/// Every item's handles are owned in the ledger and the items themselves
/// are well-formed.
pub open spec fn items_tracked(m: Map<usize, u64>, s: Seq<RenderItemDefinition>) -> bool {
    forall|i: int|
        0 <= i < s.len() ==> {
            &&& (#[trigger] s[i]).wf()
            &&& m.contains_key(s[i].texture.addr())
            &&& m.contains_key(s[i].shader_resource_view.addr())
        }
}

/// No two items share a native object.
pub open spec fn items_distinct(s: Seq<RenderItemDefinition>) -> bool {
    forall|i: int, j: int|
        #![trigger s[i], s[j]]
        0 <= i < j < s.len() ==> {
            &&& s[i].texture.addr() != s[j].texture.addr()
            &&& s[i].texture.addr() != s[j].shader_resource_view.addr()
            &&& s[i].shader_resource_view.addr() != s[j].texture.addr()
            &&& s[i].shader_resource_view.addr() != s[j].shader_resource_view.addr()
        }
}

/// The draw decided for one item at the clock reading `now`.
pub open spec fn draw_of(it: RenderItemDefinition, now: u64) -> DrawCall {
    DrawCall {
        item_data: it.updated_at(now).item_data,
        sampler: if it.pixelate {
            SamplerKind::Pixelate
        } else {
            SamplerKind::Linear
        },
        srv_addr: it.shader_resource_view.addr(),
    }
}

/// The items that survive the update pass at `now`: every non-expired item,
/// in order, with its elapsed time recomputed.
pub open spec fn live_items(s: Seq<RenderItemDefinition>, now: u64) -> Seq<RenderItemDefinition>
    decreases s.len(),
{
    if s.len() == 0 {
        Seq::empty()
    } else {
        let rest = live_items(s.drop_last(), now);
        if s.last().expired_at(now) {
            rest
        } else {
            rest.push(s.last().updated_at(now))
        }
    }
}

/// The draws of the update pass at `now`: one per non-expired item, in item
/// order.
pub open spec fn draw_calls(s: Seq<RenderItemDefinition>, now: u64) -> Seq<DrawCall>
    decreases s.len(),
{
    if s.len() == 0 {
        Seq::empty()
    } else {
        let rest = draw_calls(s.drop_last(), now);
        if s.last().expired_at(now) {
            rest
        } else {
            rest.push(draw_of(s.last(), now))
        }
    }
}

/// The ledger after the update pass at `now`: each expired item's texture
/// and view owner is released, in item order.
pub open spec fn ledger_after_expiry(
    m: Map<usize, u64>,
    s: Seq<RenderItemDefinition>,
    now: u64,
) -> Map<usize, u64>
    decreases s.len(),
{
    if s.len() == 0 {
        m
    } else {
        let m1 = ledger_after_expiry(m, s.drop_last(), now);
        if s.last().expired_at(now) {
            released(
                released(m1, s.last().texture.addr()),
                s.last().shader_resource_view.addr(),
            )
        } else {
            m1
        }
    }
}

/// The budget of one frame at the target rate, minus the time already
/// spent: how long the loop should sleep before the next frame, never
/// negative.
pub open spec fn pace_sleep_spec(target_fps: u32, elapsed_micros: u64) -> int {
    let budget = 1_000_000int / (target_fps as int);
    if elapsed_micros >= budget {
        0
    } else {
        budget - elapsed_micros
    }
}

/// The frame compositor: owns and sequences the rendering context, the live
/// items and the handle ledger through the frame cycle.
pub struct FrameCompositor {
    /// Where the compositor stands in its frame cycle.
    pub phase: FramePhase,
    /// Which pipeline state is currently bound.
    pub bindings: BindingState,
    /// The rendering context.
    pub rc: RenderContext,
    /// The items currently alive, in promotion order.
    pub items: Vec<RenderItemDefinition>,
    /// The ledger of native reference counts.
    pub ledger: RefLedger,
    /// The frame-rate target consumed by the pacing step.
    pub target_fps: u32,
}

impl FrameCompositor {
    /// The ledger is sound, every item is owned through it, no two items
    /// share an object, the context is well-formed and the frame-rate
    /// target is positive.
    pub open spec fn wf(self) -> bool {
        &&& self.ledger.wf()
        &&& items_tracked(self.ledger@, self.items@)
        &&& items_distinct(self.items@)
        &&& self.rc.wf()
        &&& 0 < self.target_fps
    }

    /// A compositor in its idle state: nothing bound, no items.
    pub fn new(rc: RenderContext, ledger: RefLedger, target_fps: u32) -> (r: FrameCompositor)
        requires
            ledger.wf(),
            rc.wf(),
            0 < target_fps,
        ensures
            r.wf(),
            r.phase == FramePhase::Idle,
            r.bindings == (BindingState {
                render_target: false,
                viewport: false,
                blend: false,
                shader: false,
                geometry: false,
                constants: false,
                sampler: None,
            }),
            r.items@ == Seq::<RenderItemDefinition>::empty(),
            r.ledger == ledger,
            r.rc == rc,
            r.target_fps == target_fps,
    {
        FrameCompositor {
            phase: FramePhase::Idle,
            bindings: BindingState::unbound(),
            rc,
            items: Vec::new(),
            ledger,
            target_fps,
        }
    }

    /// Clear the surface to the transparent background, beginning a frame.
    pub fn clear(&mut self)
        requires
            old(self).wf(),
            old(self).phase == FramePhase::Bound,
            old(self).bindings.render_target,
        ensures
            final(self).wf(),
            *final(self) == (FrameCompositor { phase: FramePhase::Cleared, ..*old(self) }),
    {
        self.phase = FramePhase::Cleared;
    }

    /// Drain the ingest queue to empty: every request decoded so far, in
    /// some order, each exactly once; the queue is left empty and never
    /// blocks the render thread.
    pub fn drain_queue(&mut self, queue: &mut IngestQueue) -> (batch: Vec<QueuedItemDefinition>)
        requires
            old(self).wf(),
            old(self).phase == FramePhase::Cleared,
        ensures
            final(self).wf(),
            *final(self) == (FrameCompositor { phase: FramePhase::Drained, ..*old(self) }),
            batch_contents(batch@) == old(queue)@,
            final(queue)@.len() == 0,
    {
        let batch = queue.drain();
        self.phase = FramePhase::Drained;
        batch
    }

    /// Promote one decoded texture into a live item: check that the pixel
    /// buffer holds exactly four bytes per pixel (the layout the texture
    /// upload assumes), take ownership of the item's just-created texture
    /// and shader-resource view, convert the item's parameters into the
    /// constant block, and record the creation time. A malformed buffer or
    /// a null among the raw results means no resource is acquired and the
    /// request is dropped.
    pub fn promote_item(
        &mut self,
        request: QueuedItemDefinition,
        texture_raw: usize,
        srv_raw: usize,
        start: PixelVec,
        end: PixelVec,
        spin_speed: u32,
        duration: u32,
        now: u64,
    ) -> (r: Result<(), RenderError>)
        requires
            old(self).wf(),
            old(self).phase == FramePhase::Drained,
            fresh_handles(old(self).ledger@, seq![texture_raw, srv_raw]),
            request.texture_data.width <= old(self).rc.world.screen_size.x,
            request.texture_data.height <= old(self).rc.world.screen_size.y,
            start.x <= old(self).rc.world.screen_size.x,
            start.y <= old(self).rc.world.screen_size.y,
            end.x <= old(self).rc.world.screen_size.x,
            end.y <= old(self).rc.world.screen_size.y,
            0 < duration,
            0 <= request.scale,
        ensures
            final(self).wf(),
            final(self).phase == FramePhase::Drained,
            final(self).bindings == old(self).bindings,
            final(self).rc == old(self).rc,
            final(self).target_fps == old(self).target_fps,
            match r {
                Ok(()) => {
                    &&& texture_raw != 0
                    &&& srv_raw != 0
                    &&& request.texture_data.buffer@.len() == 4 * request.texture_data.width
                        * request.texture_data.height
                    &&& final(self).items@.len() == old(self).items@.len() + 1
                    &&& final(self).items@.drop_last() == old(self).items@
                    &&& final(self).items@.last().texture.addr() == texture_raw
                    &&& final(self).items@.last().texture.is_live()
                    &&& final(self).items@.last().shader_resource_view.addr() == srv_raw
                    &&& final(self).items@.last().shader_resource_view.is_live()
                    &&& final(self).items@.last().pixelate == request.pixelate
                    &&& final(self).items@.last().start_time == now
                    &&& final(self).items@.last().item_data == item_block_spec(
                        PixelVec { x: request.texture_data.width, y: request.texture_data.height },
                        old(self).rc.world.screen_size,
                        start,
                        end,
                        spin_speed,
                        request.scale,
                        duration,
                    )
                    &&& final(self).ledger@ == old(self).ledger@.insert(texture_raw, 1u64).insert(
                        srv_raw,
                        1u64,
                    )
                },
                Err(e) => {
                    &&& e == RenderError::ResourceCreationFailed
                    &&& (texture_raw == 0 || srv_raw == 0 || request.texture_data.buffer@.len()
                        != 4 * request.texture_data.width * request.texture_data.height)
                    &&& final(self).items@ == old(self).items@
                    &&& final(self).ledger@ == old(self).ledger@
                },
            },
    {
        proof {
            let raws = seq![texture_raw, srv_raw];
            assert(raws[0] == texture_raw);
            assert(raws[1] == srv_raw);
            lemma_mul_upper_bound(
                4 * (request.texture_data.width as int),
                4 * (u32::MAX as int),
                request.texture_data.height as int,
                u32::MAX as int,
            );
        }
        let expected_bytes: u128 = 4u128 * (request.texture_data.width as u128)
            * (request.texture_data.height as u128);
        if (request.texture_data.buffer.len() as u128) != expected_bytes {
            return Err(RenderError::ResourceCreationFailed);
        }
        if texture_raw == 0 || srv_raw == 0 {
            return Err(RenderError::ResourceCreationFailed);
        }
        self.ledger.track_new(texture_raw);
        let texture = ComPtr::new(texture_raw);
        self.ledger.track_new(srv_raw);
        let shader_resource_view = ComPtr::new(srv_raw);
        let item_data = ItemDataBuffer::create(
            PixelVec { x: request.texture_data.width, y: request.texture_data.height },
            self.rc.world.screen_size,
            start,
            end,
            spin_speed,
            request.scale,
            duration,
        );
        let item = RenderItemDefinition {
            texture,
            shader_resource_view,
            pixelate: request.pixelate,
            start_time: now,
            item_data,
        };
        let ghost prev_items = self.items@;
        let ghost prev_ledger = old(self).ledger@;
        self.items.push(item);
        proof {
            assert(self.items@.drop_last() =~= prev_items);
            assert forall|i: int|
                0 <= i < self.items@.len() implies {
                &&& (#[trigger] self.items@[i]).wf()
                &&& self.ledger@.contains_key(self.items@[i].texture.addr())
                &&& self.ledger@.contains_key(self.items@[i].shader_resource_view.addr())
            } by {
                if i < prev_items.len() {
                    assert(prev_items[i].wf());
                }
            }
            assert forall|i: int, j: int|
                #![trigger self.items@[i], self.items@[j]]
                0 <= i < j < self.items@.len() implies {
                &&& self.items@[i].texture.addr() != self.items@[j].texture.addr()
                &&& self.items@[i].texture.addr() != self.items@[j].shader_resource_view.addr()
                &&& self.items@[i].shader_resource_view.addr() != self.items@[j].texture.addr()
                &&& self.items@[i].shader_resource_view.addr()
                    != self.items@[j].shader_resource_view.addr()
            } by {
                if j < prev_items.len() {
                    assert(prev_items[i] == self.items@[i]);
                    assert(prev_items[j] == self.items@[j]);
                } else {
                    // The new item's objects were untracked while every
                    // older item's objects are tracked, so they differ.
                    assert(prev_items[i].wf());
                    assert(prev_ledger.contains_key(prev_items[i].texture.addr()));
                    assert(prev_ledger.contains_key(prev_items[i].shader_resource_view.addr()));
                }
            }
        }
        Ok(())
    }

    /// Offer the finished frame to the external consumer. A rejected frame
    /// surfaces [`RenderError::PublishError`] to the loop's caller: fatal to
    /// this iteration, not to the compositor.
    pub fn publish(&mut self, accepted: bool) -> (r: Result<(), RenderError>)
        requires
            old(self).wf(),
            old(self).phase == FramePhase::Drawn,
        ensures
            final(self).wf(),
            *final(self) == (FrameCompositor { phase: FramePhase::Published, ..*old(self) }),
            r is Ok <==> accepted,
            r is Err ==> r == Err::<(), RenderError>(RenderError::PublishError),
    {
        self.phase = FramePhase::Published;
        if accepted {
            Ok(())
        } else {
            Err(RenderError::PublishError)
        }
    }

    /// Decide the pacing sleep that closes the frame: the remaining frame
    /// budget at the target rate, and zero — never a negative sleep, never a
    /// panic — where the frame already overran it.
    pub fn pace(&mut self, elapsed_micros: u64) -> (sleep_micros: u64)
        requires
            old(self).wf(),
            old(self).phase == FramePhase::Published,
        ensures
            final(self).wf(),
            *final(self) == (FrameCompositor { phase: FramePhase::Bound, ..*old(self) }),
            sleep_micros == pace_sleep_spec(old(self).target_fps, elapsed_micros),
    {
        self.phase = FramePhase::Bound;
        let budget: u64 = 1_000_000u64 / (self.target_fps as u64);
        if elapsed_micros >= budget {
            0
        } else {
            budget - elapsed_micros
        }
    }
}

/// Update every item for the clock reading `now` and decide the frame's
/// draws. Every non-expired item is drawn, in promotion order, with its
/// refreshed constant block and its sampler choice; every expired item is
/// excluded from the draw pass and both of its native handles are released
/// before the function returns. The published frame thus reflects exactly
/// the items alive at this reading of the clock.
pub fn render(c: &mut FrameCompositor, now: u64) -> (calls: Vec<DrawCall>)
    requires
        old(c).wf(),
        old(c).phase == FramePhase::Drained,
    ensures
        final(c).wf(),
        final(c).phase == FramePhase::Drawn,
        final(c).bindings == old(c).bindings,
        final(c).rc == old(c).rc,
        final(c).target_fps == old(c).target_fps,
        final(c).items@ == live_items(old(c).items@, now),
        calls@ == draw_calls(old(c).items@, now),
        final(c).ledger@ == ledger_after_expiry(old(c).ledger@, old(c).items@, now),
{
    let ghost orig_items = old(c).items@;
    let ghost orig_ledger = old(c).ledger@;
    let mut calls: Vec<DrawCall> = Vec::new();
    let mut kept: Vec<RenderItemDefinition> = Vec::new();
    let ghost mut k: int = 0;
    while c.items.len() > 0
        invariant
            0 <= k <= orig_items.len(),
            c.items@ == orig_items.skip(k),
            kept@ == live_items(orig_items.take(k), now),
            calls@ == draw_calls(orig_items.take(k), now),
            c.ledger@ == ledger_after_expiry(orig_ledger, orig_items.take(k), now),
            c.ledger.wf(),
            items_tracked(c.ledger@, kept@ + c.items@),
            items_distinct(kept@ + c.items@),
            c.phase == old(c).phase,
            c.bindings == old(c).bindings,
            c.rc == old(c).rc,
            c.target_fps == old(c).target_fps,
        decreases c.items@.len(),
    {
        let ghost rem0 = c.items@;
        let ghost kept0 = kept@;
        let ghost concat0 = kept0 + rem0;
        let ghost it0 = rem0[0];
        proof {
            assert(rem0.len() > 0);
            assert(it0 == orig_items[k]);
            assert(concat0[kept0.len() as int] == it0);
            assert(it0.wf());
            assert(c.ledger@.contains_key(it0.texture.addr()));
            assert(c.ledger@.contains_key(it0.shader_resource_view.addr()));
        }
        let mut it = c.items.remove(0);
        proof {
            assert(c.items@ =~= rem0.skip(1));
            assert(c.items@ =~= orig_items.skip(k + 1));
        }
        it.update(now);
        proof {
            assert(it == it0.updated_at(now));
            assert(orig_items.take(k + 1).drop_last() =~= orig_items.take(k));
            assert(orig_items.take(k + 1).last() == it0);
        }
        if it.is_expired() {
            proof {
                assert(it0.expired_at(now));
            }
            let RenderItemDefinition { texture, shader_resource_view, .. } = it;
            let ghost a = it0.texture.addr();
            let ghost b = it0.shader_resource_view.addr();
            texture.release(&mut c.ledger);
            shader_resource_view.release(&mut c.ledger);
            proof {
                k = k + 1;
                assert(kept@ == live_items(orig_items.take(k), now));
                assert(calls@ == draw_calls(orig_items.take(k), now));
                assert(c.ledger@ == ledger_after_expiry(orig_ledger, orig_items.take(k), now));
                let concat1 = kept@ + c.items@;
                assert(concat1.len() + 1 == concat0.len());
                assert forall|i: int| 0 <= i < concat1.len() implies {
                    &&& (#[trigger] concat1[i]).wf()
                    &&& c.ledger@.contains_key(concat1[i].texture.addr())
                    &&& c.ledger@.contains_key(concat1[i].shader_resource_view.addr())
                } by {
                    let oi = if i < kept0.len() { i } else { i + 1 };
                    assert(concat1[i] == concat0[oi]);
                    assert(concat0[oi].wf());
                    if oi < kept0.len() as int {
                        assert(concat0[oi].texture.addr() != a && concat0[oi].texture.addr() != b
                            && concat0[oi].shader_resource_view.addr() != a
                            && concat0[oi].shader_resource_view.addr() != b);
                    } else {
                        assert(concat0[kept0.len() as int] == it0);
                        assert(concat0[oi].texture.addr() != a && concat0[oi].texture.addr() != b
                            && concat0[oi].shader_resource_view.addr() != a
                            && concat0[oi].shader_resource_view.addr() != b);
                    }
                }
                assert forall|i: int, j: int|
                    #![trigger concat1[i], concat1[j]]
                    0 <= i < j < concat1.len() implies {
                    &&& concat1[i].texture.addr() != concat1[j].texture.addr()
                    &&& concat1[i].texture.addr() != concat1[j].shader_resource_view.addr()
                    &&& concat1[i].shader_resource_view.addr() != concat1[j].texture.addr()
                    &&& concat1[i].shader_resource_view.addr()
                        != concat1[j].shader_resource_view.addr()
                } by {
                    let oi = if i < kept0.len() { i } else { i + 1 };
                    let oj = if j < kept0.len() { j } else { j + 1 };
                    assert(concat1[i] == concat0[oi]);
                    assert(concat1[j] == concat0[oj]);
                }
            }
        } else {
            proof {
                assert(!it0.expired_at(now));
            }
            let call = DrawCall {
                item_data: it.item_data,
                sampler: if it.pixelate {
                    SamplerKind::Pixelate
                } else {
                    SamplerKind::Linear
                },
                srv_addr: it.shader_resource_view.as_raw(),
            };
            calls.push(call);
            kept.push(it);
            proof {
                k = k + 1;
                assert(call == draw_of(it0, now));
                assert(kept@ =~= live_items(orig_items.take(k), now));
                assert(calls@ =~= draw_calls(orig_items.take(k), now));
                assert(c.ledger@ == ledger_after_expiry(orig_ledger, orig_items.take(k), now));
                let concat1 = kept@ + c.items@;
                assert(concat1.len() == concat0.len());
                assert forall|i: int| 0 <= i < concat1.len() implies {
                    &&& (#[trigger] concat1[i]).wf()
                    &&& c.ledger@.contains_key(concat1[i].texture.addr())
                    &&& c.ledger@.contains_key(concat1[i].shader_resource_view.addr())
                } by {
                    assert(concat0[i].wf());
                    if i == kept0.len() as int {
                        assert(concat1[i] == it0.updated_at(now));
                    } else {
                        assert(concat1[i] == concat0[i]);
                    }
                }
                assert forall|i: int, j: int|
                    #![trigger concat1[i], concat1[j]]
                    0 <= i < j < concat1.len() implies {
                    &&& concat1[i].texture.addr() != concat1[j].texture.addr()
                    &&& concat1[i].texture.addr() != concat1[j].shader_resource_view.addr()
                    &&& concat1[i].shader_resource_view.addr() != concat1[j].texture.addr()
                    &&& concat1[i].shader_resource_view.addr()
                        != concat1[j].shader_resource_view.addr()
                } by {
                    assert(concat0[i] == concat1[i] || (i == kept0.len() as int && concat1[i]
                        == it0.updated_at(now)));
                    assert(concat0[j] == concat1[j] || (j == kept0.len() as int && concat1[j]
                        == it0.updated_at(now)));
                }
            }
        }
    }
    proof {
        assert(orig_items.take(k) =~= orig_items);
        assert((kept@ + c.items@) =~= kept@);
    }
    c.items = kept;
    c.phase = FramePhase::Drawn;
    calls
}

/// Law: the update pass excludes every expired item. No item that survives
/// into the next draw pass is at or past its duration.
pub proof fn lemma_live_items_not_expired(s: Seq<RenderItemDefinition>, now: u64)
    ensures
        forall|x: int|
            0 <= x < live_items(s, now).len() ==> !(#[trigger] live_items(s, now)[x]).expired_at(
                now,
            ),
    decreases s.len(),
{
    if s.len() > 0 {
        let rest = live_items(s.drop_last(), now);
        lemma_live_items_not_expired(s.drop_last(), now);
        if !s.last().expired_at(now) {
            let u = s.last().updated_at(now);
            assert(u.expired_at(now) == s.last().expired_at(now));
            assert forall|x: int|
                0 <= x < live_items(s, now).len() implies !(#[trigger] live_items(s, now)[x]).expired_at(
                now,
            ) by {
                if x < rest.len() {
                    assert(live_items(s, now)[x] == rest[x]);
                } else {
                    assert(live_items(s, now)[x] == u);
                }
            }
        }
    }
}

/// Law: the draw pass and the retained items correspond one to one: the
/// frame draws exactly its live items, each with the constant block of its
/// refreshed state and the sampler its pixelation flag asks for.
pub proof fn lemma_draws_match_live_items(s: Seq<RenderItemDefinition>, now: u64)
    ensures
        draw_calls(s, now).len() == live_items(s, now).len(),
        forall|x: int|
            0 <= x < live_items(s, now).len() ==> (#[trigger] draw_calls(s, now)[x]).item_data
                == live_items(s, now)[x].item_data,
    decreases s.len(),
{
    if s.len() > 0 {
        let rest_live = live_items(s.drop_last(), now);
        let rest_draws = draw_calls(s.drop_last(), now);
        lemma_draws_match_live_items(s.drop_last(), now);
        if !s.last().expired_at(now) {
            assert forall|x: int|
                0 <= x < live_items(s, now).len() implies (#[trigger] draw_calls(s, now)[x]).item_data
                == live_items(s, now)[x].item_data by {
                if x < rest_live.len() {
                    assert(draw_calls(s, now)[x] == rest_draws[x]);
                    assert(live_items(s, now)[x] == rest_live[x]);
                } else {
                    assert(draw_calls(s, now)[x] == draw_of(s.last(), now));
                    assert(live_items(s, now)[x] == s.last().updated_at(now));
                }
            }
        }
    }
}

/// The expiry sweep touches no object outside the expired items: an
/// address that belongs to none of the items keeps its entry and its count.
pub proof fn lemma_expiry_preserves_other(
    m: Map<usize, u64>,
    s: Seq<RenderItemDefinition>,
    now: u64,
    key: usize,
)
    requires
        forall|j: int|
            0 <= j < s.len() ==> key != (#[trigger] s[j]).texture.addr() && key
                != s[j].shader_resource_view.addr(),
    ensures
        ledger_after_expiry(m, s, now).contains_key(key) == m.contains_key(key),
        m.contains_key(key) ==> ledger_after_expiry(m, s, now)[key] == m[key],
    decreases s.len(),
{
    if s.len() > 0 {
        let s0 = s.drop_last();
        assert forall|j: int|
            0 <= j < s0.len() implies key != (#[trigger] s0[j]).texture.addr() && key
            != s0[j].shader_resource_view.addr() by {
            assert(s0[j] == s[j]);
        }
        lemma_expiry_preserves_other(m, s0, now, key);
        assert(s.last() == s[s.len() - 1]);
    }
}

/// Law: within the frame that an item expires, its ownership is released
/// completely. Where each of the frame's items owns its two objects exactly
/// once, the expiry sweep removes an expired item's texture and view from
/// the ledger: their reference counts reach zero.
pub proof fn lemma_expired_handles_released(
    m: Map<usize, u64>,
    s: Seq<RenderItemDefinition>,
    now: u64,
    i: int,
)
    requires
        items_tracked(m, s),
        items_distinct(s),
        0 <= i < s.len(),
        s[i].expired_at(now),
        m[s[i].texture.addr()] == 1,
        m[s[i].shader_resource_view.addr()] == 1,
    ensures
        !ledger_after_expiry(m, s, now).contains_key(s[i].texture.addr()),
        !ledger_after_expiry(m, s, now).contains_key(s[i].shader_resource_view.addr()),
    decreases s.len(),
{
    let s0 = s.drop_last();
    let m1 = ledger_after_expiry(m, s0, now);
    let a = s[i].texture.addr();
    let b = s[i].shader_resource_view.addr();
    assert(s[i].wf());
    assert(s.last() == s[s.len() - 1]);
    if i == s.len() - 1 {
        assert forall|j: int|
            0 <= j < s0.len() implies a != (#[trigger] s0[j]).texture.addr() && a
            != s0[j].shader_resource_view.addr() by {
            assert(s0[j] == s[j]);
        }
        lemma_expiry_preserves_other(m, s0, now, a);
        assert forall|j: int|
            0 <= j < s0.len() implies b != (#[trigger] s0[j]).texture.addr() && b
            != s0[j].shader_resource_view.addr() by {
            assert(s0[j] == s[j]);
        }
        lemma_expiry_preserves_other(m, s0, now, b);
        assert(m1[a] == 1 && m1[b] == 1);
        assert(released(m1, a) == m1.remove(a));
        assert(released(m1, a)[b] == 1);
        assert(released(released(m1, a), b) == m1.remove(a).remove(b));
    } else {
        assert forall|j: int| 0 <= j < s0.len() implies {
            &&& (#[trigger] s0[j]).wf()
            &&& m.contains_key(s0[j].texture.addr())
            &&& m.contains_key(s0[j].shader_resource_view.addr())
        } by {
            assert(s0[j] == s[j]);
            assert(s[j].wf());
        }
        assert forall|j1: int, j2: int|
            #![trigger s0[j1], s0[j2]]
            0 <= j1 < j2 < s0.len() implies {
            &&& s0[j1].texture.addr() != s0[j2].texture.addr()
            &&& s0[j1].texture.addr() != s0[j2].shader_resource_view.addr()
            &&& s0[j1].shader_resource_view.addr() != s0[j2].texture.addr()
            &&& s0[j1].shader_resource_view.addr() != s0[j2].shader_resource_view.addr()
        } by {
            assert(s0[j1] == s[j1]);
            assert(s0[j2] == s[j2]);
        }
        assert(s0[i] == s[i]);
        lemma_expired_handles_released(m, s0, now, i);
        if s.last().expired_at(now) {
            // The last item's releases touch its own objects, which are not
            // this item's.
            assert(s[i].texture.addr() != s[s.len() - 1].texture.addr());
        }
    }
}

/// Bind the render surface, viewport, blend state and the shared item
/// pipeline state — once, before the frame cycle begins.
pub fn setup_render_world(c: &mut FrameCompositor)
    requires
        old(c).wf(),
        old(c).phase == FramePhase::Idle,
    ensures
        final(c).wf(),
        *final(c) == (FrameCompositor {
            phase: FramePhase::Bound,
            bindings: BindingState {
                render_target: true,
                viewport: true,
                blend: true,
                shader: true,
                geometry: true,
                constants: true,
                sampler: old(c).bindings.sampler,
            },
            ..*old(c)
        }),
{
    c.rc.rtv.bind(&mut c.bindings);
    c.rc.world.viewport.bind(&mut c.bindings);
    c.rc.world.blend_state.bind(&mut c.bindings);
    c.rc.item.prepare_render(&mut c.bindings);
    c.rc.item.bind_constants(&mut c.bindings);
    c.phase = FramePhase::Bound;
}

} // verus!
