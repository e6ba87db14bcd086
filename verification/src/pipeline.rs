//! The shared, item-independent GPU pipeline state.
//!
//! One quad's vertex and index buffers, the vertex/pixel shader pair with
//! its input layout, the two sampler variants, the viewport, the alpha blend
//! state and the per-item constant buffer are created once at startup and
//! bound once per frame, not once per item. Native creation calls happen
//! outside the library; the library takes their raw results into owned
//! handles, short-circuiting on any null result, and tracks which pieces of
//! state are currently bound.

use vstd::prelude::*;

use crate::com::{fresh_handles, ComPtr, RefLedger};
use crate::coords::{PixelVec, FX_ONE};
use crate::error::RenderError;

verus! {

/// How an item's texture is sampled when scaled.
#[derive(Clone, Copy, Debug, PartialEq, Eq, Structural)]
pub enum SamplerKind {
    /// Smooth bilinear filtering.
    Linear,
    /// Nearest-neighbour filtering, for deliberately pixelated items.
    Pixelate,
}

/// The sampler variant an item asks for: nearest-neighbour when it wants
/// pixelation, smooth filtering otherwise.
pub fn select_sampler(pixelate: bool) -> (r: SamplerKind)
    ensures
        r == if pixelate {
            SamplerKind::Pixelate
        } else {
            SamplerKind::Linear
        },
{
    if pixelate {
        SamplerKind::Pixelate
    } else {
        SamplerKind::Linear
    }
}

/// Which pieces of pipeline state are currently bound on the device
/// context. The frame loop must establish all of them before any item is
/// drawn.
#[derive(Clone, Copy, Debug, PartialEq, Eq, Structural)]
pub struct BindingState {
    /// The off-screen render target is the draw destination.
    pub render_target: bool,
    /// The viewport covers the surface.
    pub viewport: bool,
    /// Alpha blending is enabled.
    pub blend: bool,
    /// Input layout and the vertex/pixel shader pair are current.
    pub shader: bool,
    /// The quad's vertex and index buffers are current.
    pub geometry: bool,
    /// The per-item constant buffer is bound to the vertex stage.
    pub constants: bool,
    /// Which sampler variant is current, if any.
    pub sampler: Option<SamplerKind>,
}

impl BindingState {
    /// Nothing is bound yet.
    pub fn unbound() -> (r: BindingState)
        ensures
            r == (BindingState {
                render_target: false,
                viewport: false,
                blend: false,
                shader: false,
                geometry: false,
                constants: false,
                sampler: None,
            }),
    {
        BindingState {
            render_target: false,
            viewport: false,
            blend: false,
            shader: false,
            geometry: false,
            constants: false,
            sampler: None,
        }
    }

    /// Everything an indexed draw of an item needs is bound.
    pub open spec fn draw_ready(self) -> bool {
        &&& self.render_target
        &&& self.viewport
        &&& self.blend
        &&& self.shader
        &&& self.geometry
        &&& self.constants
        &&& self.sampler is Some
    }
}

/// A texture sampler variant.
pub struct SamplerState {
    /// Owner of the native sampler-state object.
    pub state: ComPtr,
    /// Which variant this sampler is.
    pub kind: SamplerKind,
}

impl SamplerState {
    /// The sampler handle is a live owner.
    pub open spec fn wf(self) -> bool {
        self.state.is_live()
    }

    /// Take ownership of a just-created linear sampler. A null result means
    /// the native creation failed and is startup-fatal.
    pub fn linear(ledger: &mut RefLedger, raw: usize) -> (r: Result<SamplerState, RenderError>)
        requires
            old(ledger).wf(),
            raw != 0 ==> !old(ledger)@.contains_key(raw),
        ensures
            final(ledger).wf(),
            match r {
                Ok(s) => {
                    &&& raw != 0
                    &&& s.wf()
                    &&& s.state.addr() == raw
                    &&& s.kind == SamplerKind::Linear
                    &&& final(ledger)@ == old(ledger)@.insert(raw, 1u64)
                },
                Err(e) => {
                    &&& raw == 0
                    &&& e == RenderError::ResourceCreationFailed
                    &&& final(ledger)@ == old(ledger)@
                },
            },
    {
        match ComPtr::acquire(ledger, raw) {
            Ok(state) => Ok(SamplerState { state, kind: SamplerKind::Linear }),
            Err(_) => Err(RenderError::ResourceCreationFailed),
        }
    }

    /// Take ownership of a just-created nearest-neighbour sampler.
    pub fn pixelate(ledger: &mut RefLedger, raw: usize) -> (r: Result<SamplerState, RenderError>)
        requires
            old(ledger).wf(),
            raw != 0 ==> !old(ledger)@.contains_key(raw),
        ensures
            final(ledger).wf(),
            match r {
                Ok(s) => {
                    &&& raw != 0
                    &&& s.wf()
                    &&& s.state.addr() == raw
                    &&& s.kind == SamplerKind::Pixelate
                    &&& final(ledger)@ == old(ledger)@.insert(raw, 1u64)
                },
                Err(e) => {
                    &&& raw == 0
                    &&& e == RenderError::ResourceCreationFailed
                    &&& final(ledger)@ == old(ledger)@
                },
            },
    {
        match ComPtr::acquire(ledger, raw) {
            Ok(state) => Ok(SamplerState { state, kind: SamplerKind::Pixelate }),
            Err(_) => Err(RenderError::ResourceCreationFailed),
        }
    }

    /// Make this sampler variant current.
    pub fn bind(&self, b: &mut BindingState)
        requires
            self.wf(),
        ensures
            *final(b) == (BindingState { sampler: Some(self.kind), ..*old(b) }),
    {
        b.sampler = Some(self.kind);
    }
}

/// The viewport mapping NDC onto the surface: anchored at the top-left
/// corner, covering the whole surface, with a fixed-point depth range.
#[derive(Clone, Copy, Debug, PartialEq, Eq, Structural)]
pub struct Viewport {
    /// Viewport width in pixels.
    pub width: u32,
    /// Viewport height in pixels.
    pub height: u32,
    /// Near depth bound, fixed-point in `[0, 1]`.
    pub min_depth: i64,
    /// Far depth bound, fixed-point in `[0, 1]`.
    pub max_depth: i64,
}

impl Viewport {
    /// The depth range is ordered and within `[0, 1]`.
    pub open spec fn wf(self) -> bool {
        0 <= self.min_depth <= self.max_depth <= FX_ONE
    }

    /// A viewport covering a surface of the given size with the given depth
    /// range.
    pub fn new(size: PixelVec, min_depth: i64, max_depth: i64) -> (r: Viewport)
        requires
            0 <= min_depth <= max_depth <= FX_ONE,
        ensures
            r == (Viewport { width: size.x, height: size.y, min_depth, max_depth }),
            r.wf(),
    {
        Viewport { width: size.x, height: size.y, min_depth, max_depth }
    }

    /// Make this viewport current.
    pub fn bind(&self, b: &mut BindingState)
        ensures
            *final(b) == (BindingState { viewport: true, ..*old(b) }),
    {
        b.viewport = true;
    }
}

/// The blend state that composites items over the transparent surface by
/// their alpha.
pub struct BlendState {
    /// Owner of the native blend-state object.
    pub state: ComPtr,
}

impl BlendState {
    /// The blend-state handle is a live owner.
    pub open spec fn wf(self) -> bool {
        self.state.is_live()
    }

    /// Take ownership of a just-created alpha blend state.
    pub fn alpha_blend_state(ledger: &mut RefLedger, raw: usize) -> (r: Result<
        BlendState,
        RenderError,
    >)
        requires
            old(ledger).wf(),
            raw != 0 ==> !old(ledger)@.contains_key(raw),
        ensures
            final(ledger).wf(),
            match r {
                Ok(s) => {
                    &&& raw != 0
                    &&& s.wf()
                    &&& s.state.addr() == raw
                    &&& final(ledger)@ == old(ledger)@.insert(raw, 1u64)
                },
                Err(e) => {
                    &&& raw == 0
                    &&& e == RenderError::ResourceCreationFailed
                    &&& final(ledger)@ == old(ledger)@
                },
            },
    {
        match ComPtr::acquire(ledger, raw) {
            Ok(state) => Ok(BlendState { state }),
            Err(_) => Err(RenderError::ResourceCreationFailed),
        }
    }

    /// Enable alpha blending for the draw passes.
    pub fn bind(&self, b: &mut BindingState)
        requires
            self.wf(),
        ensures
            *final(b) == (BindingState { blend: true, ..*old(b) }),
    {
        b.blend = true;
    }
}

/// The compiled shader pair for rendering items, with its input layout.
pub struct ItemShader {
    /// Owner of the input-layout object matching the quad vertex format.
    pub input_layout: ComPtr,
    /// Owner of the vertex shader.
    pub vertex: ComPtr,
    /// Owner of the pixel shader.
    pub pixel: ComPtr,
}

impl ItemShader {
    /// All three handles are live owners of distinct objects.
    pub open spec fn wf(self) -> bool {
        &&& self.input_layout.is_live()
        &&& self.vertex.is_live()
        &&& self.pixel.is_live()
        &&& self.input_layout.addr() != self.vertex.addr()
        &&& self.input_layout.addr() != self.pixel.addr()
        &&& self.vertex.addr() != self.pixel.addr()
    }

    /// Take ownership of the just-created shader objects. A null result
    /// means compilation or creation failed; nothing is acquired then, and
    /// the failure is startup-fatal.
    pub fn create(
        ledger: &mut RefLedger,
        input_layout_raw: usize,
        vertex_raw: usize,
        pixel_raw: usize,
    ) -> (r: Result<ItemShader, RenderError>)
        requires
            old(ledger).wf(),
            fresh_handles(old(ledger)@, seq![input_layout_raw, vertex_raw, pixel_raw]),
        ensures
            final(ledger).wf(),
            match r {
                Ok(sh) => {
                    &&& sh.wf()
                    &&& sh.input_layout.addr() == input_layout_raw
                    &&& sh.vertex.addr() == vertex_raw
                    &&& sh.pixel.addr() == pixel_raw
                    &&& final(ledger)@ == old(ledger)@.insert(input_layout_raw, 1u64).insert(
                        vertex_raw,
                        1u64,
                    ).insert(pixel_raw, 1u64)
                },
                Err(e) => {
                    &&& e == RenderError::ShaderCompilationFailed
                    &&& (input_layout_raw == 0 || vertex_raw == 0 || pixel_raw == 0)
                    &&& final(ledger)@ == old(ledger)@
                },
            },
    {
        proof {
            let raws = seq![input_layout_raw, vertex_raw, pixel_raw];
            assert(raws[0] == input_layout_raw);
            assert(raws[1] == vertex_raw);
            assert(raws[2] == pixel_raw);
        }
        if input_layout_raw == 0 || vertex_raw == 0 || pixel_raw == 0 {
            return Err(RenderError::ShaderCompilationFailed);
        }
        ledger.track_new(input_layout_raw);
        let input_layout = ComPtr::new(input_layout_raw);
        ledger.track_new(vertex_raw);
        let vertex = ComPtr::new(vertex_raw);
        ledger.track_new(pixel_raw);
        let pixel = ComPtr::new(pixel_raw);
        Ok(ItemShader { input_layout, vertex, pixel })
    }

    /// Make the input layout and both shaders current.
    pub fn bind(&self, b: &mut BindingState)
        requires
            self.wf(),
        ensures
            *final(b) == (BindingState { shader: true, ..*old(b) }),
    {
        b.shader = true;
    }
}

/// The world-level render state: surface size, viewport and blending.
pub struct WorldRenderContext {
    /// The surface size in pixels.
    pub screen_size: PixelVec,
    /// The viewport covering the surface.
    pub viewport: Viewport,
    /// The alpha blend state.
    pub blend_state: BlendState,
}

impl WorldRenderContext {
    /// The viewport covers the surface exactly and the blend state is owned.
    pub open spec fn wf(self) -> bool {
        &&& 0 < self.screen_size.x
        &&& 0 < self.screen_size.y
        &&& self.viewport.wf()
        &&& self.viewport.width == self.screen_size.x
        &&& self.viewport.height == self.screen_size.y
        &&& self.blend_state.wf()
    }

    /// Build the world state for a surface: a full-surface viewport with the
    /// whole depth range, and the alpha blend state taken from its native
    /// creation result.
    pub fn create(ledger: &mut RefLedger, screen_size: PixelVec, blend_raw: usize) -> (r: Result<
        WorldRenderContext,
        RenderError,
    >)
        requires
            old(ledger).wf(),
            0 < screen_size.x,
            0 < screen_size.y,
            blend_raw != 0 ==> !old(ledger)@.contains_key(blend_raw),
        ensures
            final(ledger).wf(),
            match r {
                Ok(w) => {
                    &&& w.wf()
                    &&& w.screen_size == screen_size
                    &&& w.viewport.min_depth == 0
                    &&& w.viewport.max_depth == FX_ONE
                    &&& w.blend_state.state.addr() == blend_raw
                    &&& final(ledger)@ == old(ledger)@.insert(blend_raw, 1u64)
                },
                Err(e) => {
                    &&& blend_raw == 0
                    &&& e == RenderError::ResourceCreationFailed
                    &&& final(ledger)@ == old(ledger)@
                },
            },
    {
        let viewport = Viewport::new(screen_size, 0, FX_ONE);
        match BlendState::alpha_blend_state(ledger, blend_raw) {
            Ok(blend_state) => Ok(WorldRenderContext { screen_size, viewport, blend_state }),
            Err(e) => Err(e),
        }
    }
}

/// Everything shared between item draws: shaders, quad geometry buffers,
/// the two sampler variants, and the constant buffer the per-item block is
/// uploaded through.
pub struct ItemRenderContext {
    /// The shader pair and input layout.
    pub item_shader: ItemShader,
    /// Owner of the quad's index buffer.
    pub index_buffer: ComPtr,
    /// Owner of the quad's vertex buffer.
    pub vertex_buffer: ComPtr,
    /// The smooth sampler.
    pub linear_sampler: SamplerState,
    /// The nearest-neighbour sampler.
    pub pixelate_sampler: SamplerState,
    /// Owner of the per-item constant buffer.
    pub item_data: ComPtr,
}

impl ItemRenderContext {
    /// All handles are live owners; the samplers carry their variants.
    pub open spec fn wf(self) -> bool {
        &&& self.item_shader.wf()
        &&& self.index_buffer.is_live()
        &&& self.vertex_buffer.is_live()
        &&& self.linear_sampler.wf()
        &&& self.linear_sampler.kind == SamplerKind::Linear
        &&& self.pixelate_sampler.wf()
        &&& self.pixelate_sampler.kind == SamplerKind::Pixelate
        &&& self.item_data.is_live()
    }

    /// Take ownership of the whole set of just-created shared objects. Any
    /// null among the raw results means a native creation failed: nothing is
    /// acquired, and construction short-circuits with a startup-fatal error.
    pub fn create(
        ledger: &mut RefLedger,
        input_layout_raw: usize,
        vertex_shader_raw: usize,
        pixel_shader_raw: usize,
        index_buffer_raw: usize,
        vertex_buffer_raw: usize,
        linear_sampler_raw: usize,
        pixelate_sampler_raw: usize,
        constant_buffer_raw: usize,
    ) -> (r: Result<ItemRenderContext, RenderError>)
        requires
            old(ledger).wf(),
            fresh_handles(
                old(ledger)@,
                seq![
                    input_layout_raw,
                    vertex_shader_raw,
                    pixel_shader_raw,
                    index_buffer_raw,
                    vertex_buffer_raw,
                    linear_sampler_raw,
                    pixelate_sampler_raw,
                    constant_buffer_raw,
                ],
            ),
        ensures
            final(ledger).wf(),
            match r {
                Ok(c) => {
                    &&& c.wf()
                    &&& final(ledger)@ == old(ledger)@.insert(input_layout_raw, 1u64).insert(
                        vertex_shader_raw,
                        1u64,
                    ).insert(pixel_shader_raw, 1u64).insert(index_buffer_raw, 1u64).insert(
                        vertex_buffer_raw,
                        1u64,
                    ).insert(linear_sampler_raw, 1u64).insert(pixelate_sampler_raw, 1u64).insert(
                        constant_buffer_raw,
                        1u64,
                    )
                },
                Err(e) => {
                    &&& (e == RenderError::ShaderCompilationFailed || e
                        == RenderError::ResourceCreationFailed)
                    &&& (input_layout_raw == 0 || vertex_shader_raw == 0 || pixel_shader_raw == 0
                        || index_buffer_raw == 0 || vertex_buffer_raw == 0 || linear_sampler_raw
                        == 0 || pixelate_sampler_raw == 0 || constant_buffer_raw == 0)
                    &&& final(ledger)@ == old(ledger)@
                },
            },
    {
        proof {
            let raws = seq![
                input_layout_raw,
                vertex_shader_raw,
                pixel_shader_raw,
                index_buffer_raw,
                vertex_buffer_raw,
                linear_sampler_raw,
                pixelate_sampler_raw,
                constant_buffer_raw,
            ];
            assert(raws[0] == input_layout_raw);
            assert(raws[1] == vertex_shader_raw);
            assert(raws[2] == pixel_shader_raw);
            assert(raws[3] == index_buffer_raw);
            assert(raws[4] == vertex_buffer_raw);
            assert(raws[5] == linear_sampler_raw);
            assert(raws[6] == pixelate_sampler_raw);
            assert(raws[7] == constant_buffer_raw);
        }
        if input_layout_raw == 0 || vertex_shader_raw == 0 || pixel_shader_raw == 0 {
            return Err(RenderError::ShaderCompilationFailed);
        }
        if index_buffer_raw == 0 || vertex_buffer_raw == 0 || linear_sampler_raw == 0
            || pixelate_sampler_raw == 0 || constant_buffer_raw == 0 {
            return Err(RenderError::ResourceCreationFailed);
        }
        ledger.track_new(input_layout_raw);
        let input_layout = ComPtr::new(input_layout_raw);
        ledger.track_new(vertex_shader_raw);
        let vertex = ComPtr::new(vertex_shader_raw);
        ledger.track_new(pixel_shader_raw);
        let pixel = ComPtr::new(pixel_shader_raw);
        ledger.track_new(index_buffer_raw);
        let index_buffer = ComPtr::new(index_buffer_raw);
        ledger.track_new(vertex_buffer_raw);
        let vertex_buffer = ComPtr::new(vertex_buffer_raw);
        ledger.track_new(linear_sampler_raw);
        let linear_sampler = SamplerState {
            state: ComPtr::new(linear_sampler_raw),
            kind: SamplerKind::Linear,
        };
        ledger.track_new(pixelate_sampler_raw);
        let pixelate_sampler = SamplerState {
            state: ComPtr::new(pixelate_sampler_raw),
            kind: SamplerKind::Pixelate,
        };
        ledger.track_new(constant_buffer_raw);
        let item_data = ComPtr::new(constant_buffer_raw);
        Ok(
            ItemRenderContext {
                item_shader: ItemShader { input_layout, vertex, pixel },
                index_buffer,
                vertex_buffer,
                linear_sampler,
                pixelate_sampler,
                item_data,
            },
        )
    }

    /// Bind the constant buffer to the vertex stage.
    pub fn bind_constants(&self, b: &mut BindingState)
        requires
            self.wf(),
        ensures
            *final(b) == (BindingState { constants: true, ..*old(b) }),
    {
        b.constants = true;
    }

    /// Make the item shader, quad geometry and constant buffer current —
    /// once per frame, before iterating the items.
    pub fn prepare_render(&self, b: &mut BindingState)
        requires
            self.wf(),
        ensures
            *final(b) == (BindingState { shader: true, geometry: true, constants: true, ..*old(b) }),
    {
        self.item_shader.bind(b);
        b.geometry = true;
        self.bind_constants(b);
    }

    /// Make the sampler variant the item asks for current.
    pub fn set_sampler(&self, b: &mut BindingState, pixelate: bool)
        requires
            self.wf(),
        ensures
            *final(b) == (BindingState {
                sampler: Some(
                    if pixelate {
                        SamplerKind::Pixelate
                    } else {
                        SamplerKind::Linear
                    },
                ),
                ..*old(b)
            }),
    {
        if pixelate {
            self.pixelate_sampler.bind(b);
        } else {
            self.linear_sampler.bind(b);
        }
    }
}

} // verus!
