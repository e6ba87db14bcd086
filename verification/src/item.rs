//! One in-flight animated sprite and its GPU-visible parameter block.
//!
//! An item's immutable parameters (normalized texture size, start and end
//! positions in NDC, spin speed, scale, duration, pixelation) are fixed when
//! the item is promoted onto the render thread; the only mutable state is the
//! elapsed time, recomputed every frame and pushed to the shader stage inside
//! a constant block whose byte layout is a fixed wire format padded to a
//! 16-byte multiple.

use vstd::arithmetic::div_mod::{lemma_div_by_multiple, lemma_div_is_ordered, lemma_div_of0};
use vstd::prelude::*;

use crate::com::ComPtr;
use crate::coords::{
    interp_fx, lemma_interp_at_start, lemma_ndc_x_range, lemma_ndc_y_range, lerp_fx,
    to_screen_space, ndc_x_of, ndc_y_of, NdcVec, PixelVec, FX_ONE,
};

verus! {

/// Size in bytes of the encoded constant block: ten 32-bit fields plus eight
/// bytes of explicit padding, reaching the required 16-byte multiple.
pub const CONST_BLOCK_BYTES: usize = 48;

/// The animation parameters handed to the shader stage, in fixed-point
/// units of [`FX_ONE`]. Field order is the wire format of
/// [`ItemDataBuffer::encode`]; the paired shader must mirror any change.
#[derive(Clone, Copy, Debug, PartialEq, Eq, Structural)]
pub struct ItemDataBuffer {
    /// Texture width divided by surface width, fixed-point.
    pub norm_texture_w: i32,
    /// Texture height divided by surface height, fixed-point.
    pub norm_texture_h: i32,
    /// Start position, NDC x, fixed-point.
    pub start_x: i32,
    /// Start position, NDC y, fixed-point.
    pub start_y: i32,
    /// End position, NDC x, fixed-point.
    pub end_x: i32,
    /// End position, NDC y, fixed-point.
    pub end_y: i32,
    /// Spin speed in milliseconds per revolution.
    pub spin_speed: u32,
    /// Relative scale of the item image, fixed-point.
    pub scale: i32,
    /// Total lifetime of the item in milliseconds.
    pub duration: u32,
    /// Milliseconds since the item was created; the only field that changes
    /// after creation.
    pub elapsed_time: u32,
}

/// The two's-complement 32-bit image of a signed field value.
pub open spec fn bits32(x: int) -> int {
    if x >= 0 {
        x
    } else {
        x + 0x1_0000_0000
    }
}

/// The four little-endian bytes of a 32-bit value.
pub open spec fn le4(u: int) -> Seq<u8> {
    seq![
        (u % 256) as u8,
        ((u / 256) % 256) as u8,
        ((u / 65536) % 256) as u8,
        ((u / 16777216) % 256) as u8,
    ]
}

/// The constant block that creation-time conversion yields: texture
/// dimensions normalized against the surface, start and end positions mapped
/// to normalized device coordinates, elapsed time zero.
pub open spec fn item_block_spec(
    texture_size: PixelVec,
    screen: PixelVec,
    start: PixelVec,
    end: PixelVec,
    spin_speed: u32,
    scale: i32,
    duration: u32,
) -> ItemDataBuffer {
    ItemDataBuffer {
        norm_texture_w: (texture_size.x * (FX_ONE as int) / (screen.x as int)) as i32,
        norm_texture_h: (texture_size.y * (FX_ONE as int) / (screen.y as int)) as i32,
        start_x: ndc_x_of(start.x as int, screen.x as int) as i32,
        start_y: ndc_y_of(start.y as int, screen.y as int) as i32,
        end_x: ndc_x_of(end.x as int, screen.x as int) as i32,
        end_y: ndc_y_of(end.y as int, screen.y as int) as i32,
        spin_speed,
        scale,
        duration,
        elapsed_time: 0,
    }
}

/// Milliseconds elapsed between creation at `start` and the clock reading
/// `now`, clamped below at zero (a clock that has not advanced yet) and above
/// at the largest representable value.
pub open spec fn elapsed_ms(start: int, now: int) -> int {
    if now <= start {
        0
    } else if now - start >= u32::MAX {
        u32::MAX as int
    } else {
        now - start
    }
}

impl ItemDataBuffer {
    /// Parameter sanity: a positive lifetime, normalized sizes within one
    /// surface, positions inside the NDC square, a non-negative scale.
    pub open spec fn wf(self) -> bool {
        &&& 0 < self.duration
        &&& 0 <= self.norm_texture_w <= FX_ONE
        &&& 0 <= self.norm_texture_h <= FX_ONE
        &&& -FX_ONE <= self.start_x <= FX_ONE
        &&& -FX_ONE <= self.start_y <= FX_ONE
        &&& -FX_ONE <= self.end_x <= FX_ONE
        &&& -FX_ONE <= self.end_y <= FX_ONE
        &&& 0 <= self.scale
    }

    /// The exact wire format uploaded to the shader stage: the ten fields in
    /// declaration order, each as four little-endian bytes, then eight bytes
    /// of padding to the 16-byte boundary.
    pub open spec fn spec_bytes(self) -> Seq<u8> {
        le4(bits32(self.norm_texture_w as int)) + le4(bits32(self.norm_texture_h as int))
            + le4(bits32(self.start_x as int)) + le4(bits32(self.start_y as int)) + le4(
            bits32(self.end_x as int),
        ) + le4(bits32(self.end_y as int)) + le4(self.spin_speed as int) + le4(
            bits32(self.scale as int),
        ) + le4(self.duration as int) + le4(self.elapsed_time as int) + seq![
            0u8,
            0u8,
            0u8,
            0u8,
            0u8,
            0u8,
            0u8,
            0u8,
        ]
    }

    /// Convert an item's creation-time parameters from pixel space into the
    /// fixed-point constant block: texture dimensions are normalized against
    /// the surface, start and end positions are mapped to normalized device
    /// coordinates, and the elapsed time starts at zero.
    pub fn create(
        texture_size: PixelVec,
        screen: PixelVec,
        start: PixelVec,
        end: PixelVec,
        spin_speed: u32,
        scale: i32,
        duration: u32,
    ) -> (r: ItemDataBuffer)
        requires
            0 < screen.x,
            0 < screen.y,
            texture_size.x <= screen.x,
            texture_size.y <= screen.y,
            start.x <= screen.x,
            start.y <= screen.y,
            end.x <= screen.x,
            end.y <= screen.y,
            0 < duration,
            0 <= scale,
        ensures
            r.wf(),
            r == item_block_spec(texture_size, screen, start, end, spin_speed, scale, duration),
    {
        let norm_w = norm_dim(texture_size.x, screen.x);
        let norm_h = norm_dim(texture_size.y, screen.y);
        let s = to_screen_space(start, screen);
        let e = to_screen_space(end, screen);
        proof {
            lemma_ndc_x_range(start.x as int, screen.x as int);
            lemma_ndc_y_range(start.y as int, screen.y as int);
            lemma_ndc_x_range(end.x as int, screen.x as int);
            lemma_ndc_y_range(end.y as int, screen.y as int);
        }
        ItemDataBuffer {
            norm_texture_w: norm_w,
            norm_texture_h: norm_h,
            start_x: s.x as i32,
            start_y: s.y as i32,
            end_x: e.x as i32,
            end_y: e.y as i32,
            spin_speed,
            scale,
            duration,
            elapsed_time: 0,
        }
    }

    /// Encode the block for upload. The whole block is rewritten every
    /// frame; its length is always the same 16-byte multiple.
    #[verifier::rlimit(100)]
    pub fn encode(&self) -> (r: Vec<u8>)
        ensures
            r@ == self.spec_bytes(),
            r@.len() == CONST_BLOCK_BYTES,
            r@.len() % 16 == 0,
    {
        let mut out: Vec<u8> = Vec::new();
        push_u32_le(&mut out, i32_bits(self.norm_texture_w));
        push_u32_le(&mut out, i32_bits(self.norm_texture_h));
        push_u32_le(&mut out, i32_bits(self.start_x));
        push_u32_le(&mut out, i32_bits(self.start_y));
        push_u32_le(&mut out, i32_bits(self.end_x));
        push_u32_le(&mut out, i32_bits(self.end_y));
        push_u32_le(&mut out, self.spin_speed);
        push_u32_le(&mut out, i32_bits(self.scale));
        push_u32_le(&mut out, self.duration);
        push_u32_le(&mut out, self.elapsed_time);
        out.push(0u8);
        out.push(0u8);
        out.push(0u8);
        out.push(0u8);
        out.push(0u8);
        out.push(0u8);
        out.push(0u8);
        out.push(0u8);
        proof {
            assert(out@ =~= self.spec_bytes());
        }
        out
    }
}

/// A texture dimension normalized against the surface dimension, in
/// fixed-point units: `tex / screen`, at most one.
fn norm_dim(tex: u32, screen: u32) -> (r: i32)
    requires
        0 < screen,
        tex <= screen,
    ensures
        r == tex * (FX_ONE as int) / (screen as int),
        0 <= r <= FX_ONE,
{
    let q: u64 = (tex as u64) * (FX_ONE as u64) / (screen as u64);
    proof {
        let fx = FX_ONE as int;
        lemma_div_of0(screen as int);
        lemma_div_is_ordered(0, tex as int * fx, screen as int);
        lemma_div_is_ordered(tex as int * fx, fx * (screen as int), screen as int);
        lemma_div_by_multiple(fx, screen as int);
    }
    q as i32
}

/// The two's-complement bit image of a signed 32-bit value, as an unsigned
/// value of the same width.
fn i32_bits(x: i32) -> (u: u32)
    ensures
        u == bits32(x as int),
{
    if x >= 0 {
        x as u32
    } else {
        ((x as i64) + 0x1_0000_0000i64) as u32
    }
}

/// Append the four little-endian bytes of `u`.
fn push_u32_le(out: &mut Vec<u8>, u: u32)
    ensures
        final(out)@ == old(out)@ + le4(u as int),
{
    out.push((u % 256) as u8);
    out.push(((u / 256) % 256) as u8);
    out.push(((u / 65536) % 256) as u8);
    out.push(((u / 16777216) % 256) as u8);
    proof {
        assert(out@ =~= old(out)@ + le4(u as int));
    }
}

/// Definition of an item to be thrown: where its encoded bytes come from and
/// how it should be rendered.
pub struct ItemDefinition {
    /// Path or identifier of the encoded image asset.
    pub texture_path: String,
    /// Whether to pixelate (nearest-neighbour sample) the texture when
    /// scaling during render.
    pub pixelate: bool,
    /// Relative scale of the image, fixed-point.
    pub scale: i32,
}

/// An item that is ready to render: its native texture resources, its
/// immutable parameters and its per-frame state.
pub struct RenderItemDefinition {
    /// Owner of the item's texture object.
    pub texture: ComPtr,
    /// Owner of the shader-resource view over the texture.
    pub shader_resource_view: ComPtr,
    /// Whether to pixelate when rendering.
    pub pixelate: bool,
    /// Clock reading at creation, in milliseconds.
    pub start_time: u64,
    /// The constant block uploaded for this item each frame.
    pub item_data: ItemDataBuffer,
}

impl RenderItemDefinition {
    /// Both native handles are live, distinct objects, and the parameters
    /// are sane.
    pub open spec fn wf(self) -> bool {
        &&& self.texture.is_live()
        &&& self.shader_resource_view.is_live()
        &&& self.texture.addr() != self.shader_resource_view.addr()
        &&& self.item_data.wf()
    }

    /// The item with its elapsed time recomputed for the clock reading
    /// `now`; no other field changes.
    pub open spec fn updated_at(self, now: u64) -> RenderItemDefinition {
        RenderItemDefinition {
            item_data: ItemDataBuffer {
                elapsed_time: elapsed_ms(self.start_time as int, now as int) as u32,
                ..self.item_data
            },
            ..self
        }
    }

    /// Whether the item has outlived its duration once updated at `now`.
    pub open spec fn expired_at(self, now: u64) -> bool {
        elapsed_ms(self.start_time as int, now as int) >= self.item_data.duration
    }

    /// Recompute the elapsed time for the clock reading `now`.
    pub fn update(&mut self, now: u64)
        ensures
            *final(self) == (old(self).updated_at(now)),
    {
        let diff: u64 = if now >= self.start_time {
            now - self.start_time
        } else {
            0
        };
        let e: u32 = if diff >= u32::MAX as u64 {
            u32::MAX
        } else {
            diff as u32
        };
        self.item_data.elapsed_time = e;
    }

    /// Whether the stored elapsed time has reached the item's duration; an
    /// expired item is excluded from the draw pass and released.
    pub fn is_expired(&self) -> (r: bool)
        ensures
            r == (self.item_data.elapsed_time >= self.item_data.duration),
    {
        self.item_data.elapsed_time >= self.item_data.duration
    }

    /// The interpolated NDC x position for the stored elapsed time, with the
    /// time clamped to the item's duration.
    pub open spec fn position_x_spec(self) -> int {
        interp_fx(
            self.item_data.start_x as int,
            self.item_data.end_x as int,
            clamped_time(self.item_data) as int,
            self.item_data.duration as int,
        )
    }

    /// The interpolated NDC y position for the stored elapsed time.
    pub open spec fn position_y_spec(self) -> int {
        interp_fx(
            self.item_data.start_y as int,
            self.item_data.end_y as int,
            clamped_time(self.item_data) as int,
            self.item_data.duration as int,
        )
    }

    /// The item's current position: the linear blend from start to end at
    /// the stored elapsed time, clamped to `[0, duration]`.
    pub fn current_position(&self) -> (r: NdcVec)
        requires
            self.item_data.wf(),
        ensures
            r.x == self.position_x_spec(),
            r.y == self.position_y_spec(),
    {
        let d = &self.item_data;
        let t: u32 = if d.elapsed_time >= d.duration {
            d.duration
        } else {
            d.elapsed_time
        };
        let x = lerp_fx(d.start_x as i64, d.end_x as i64, t, d.duration);
        let y = lerp_fx(d.start_y as i64, d.end_y as i64, t, d.duration);
        NdcVec { x, y }
    }
}

/// The stored elapsed time clamped to the item's duration.
pub open spec fn clamped_time(d: ItemDataBuffer) -> u32 {
    if d.elapsed_time >= d.duration {
        d.duration
    } else {
        d.elapsed_time
    }
}

/// Law: an item updated at its own creation time reports zero elapsed time,
/// and its interpolated position is exactly its start position.
pub proof fn lemma_item_at_creation(item: RenderItemDefinition)
    requires
        item.item_data.wf(),
    ensures
        item.updated_at(item.start_time).item_data.elapsed_time == 0,
        item.updated_at(item.start_time).position_x_spec() == item.item_data.start_x,
        item.updated_at(item.start_time).position_y_spec() == item.item_data.start_y,
{
    let u = item.updated_at(item.start_time);
    assert(u.item_data.elapsed_time == 0);
    lemma_interp_at_start(
        u.item_data.start_x as int,
        u.item_data.end_x as int,
        u.item_data.duration as int,
    );
    lemma_interp_at_start(
        u.item_data.start_y as int,
        u.item_data.end_y as int,
        u.item_data.duration as int,
    );
}

impl ItemDefinition {
    /// Assemble a render-ready item from its freshly created native
    /// resources and its seeded constant block, recording the creation time.
    pub fn create_render_item(
        self,
        texture: ComPtr,
        shader_resource_view: ComPtr,
        item_data: ItemDataBuffer,
        now: u64,
    ) -> (r: RenderItemDefinition)
        requires
            texture.is_live(),
            shader_resource_view.is_live(),
            texture.addr() != shader_resource_view.addr(),
            item_data.wf(),
        ensures
            r.wf(),
            r == (RenderItemDefinition {
                texture,
                shader_resource_view,
                pixelate: self.pixelate,
                start_time: now,
                item_data,
            }),
    {
        RenderItemDefinition { texture, shader_resource_view, pixelate: self.pixelate, start_time: now, item_data }
    }
}

/// One vertex of the shared unit quad: position and texture coordinates in
/// fixed-point units.
#[derive(Clone, Copy, Debug, PartialEq, Eq, Structural)]
pub struct ItemVertex {
    /// Quad-local x position, fixed-point.
    pub pos_x: i32,
    /// Quad-local y position, fixed-point.
    pub pos_y: i32,
    /// Texture u coordinate, fixed-point.
    pub tex_u: i32,
    /// Texture v coordinate, fixed-point.
    pub tex_v: i32,
}

/// The four corners of the unit quad every item is rendered with: a
/// half-unit square around the origin with the texture mapped top-left to
/// bottom-right.
pub open spec fn quad_vertices() -> Seq<ItemVertex> {
    seq![
        ItemVertex { pos_x: -500_000i32, pos_y: -500_000i32, tex_u: 0i32, tex_v: 1_000_000i32 },
        ItemVertex { pos_x: -500_000i32, pos_y: 500_000i32, tex_u: 0i32, tex_v: 0i32 },
        ItemVertex { pos_x: 500_000i32, pos_y: 500_000i32, tex_u: 1_000_000i32, tex_v: 0i32 },
        ItemVertex { pos_x: 500_000i32, pos_y: -500_000i32, tex_u: 1_000_000i32, tex_v: 1_000_000i32 },
    ]
}

/// The triangle-list indices of the quad: two triangles over the four
/// corners.
pub open spec fn quad_indices() -> Seq<u32> {
    seq![0u32, 1u32, 2u32, 0u32, 2u32, 3u32]
}

/// The vertex data used to render items, exactly [`quad_vertices`].
pub fn create_item_vertex_buffer() -> (r: Vec<ItemVertex>)
    ensures
        r@ == quad_vertices(),
{
    let mut out: Vec<ItemVertex> = Vec::new();
    out.push(ItemVertex { pos_x: -500_000, pos_y: -500_000, tex_u: 0, tex_v: 1_000_000 });
    out.push(ItemVertex { pos_x: -500_000, pos_y: 500_000, tex_u: 0, tex_v: 0 });
    out.push(ItemVertex { pos_x: 500_000, pos_y: 500_000, tex_u: 1_000_000, tex_v: 0 });
    out.push(ItemVertex { pos_x: 500_000, pos_y: -500_000, tex_u: 1_000_000, tex_v: 1_000_000 });
    proof {
        assert(out@ =~= quad_vertices());
    }
    out
}

/// The index data used to render items, exactly [`quad_indices`].
pub fn create_item_index_buffer() -> (r: Vec<u32>)
    ensures
        r@ == quad_indices(),
{
    let mut out: Vec<u32> = Vec::new();
    out.push(0);
    out.push(1);
    out.push(2);
    out.push(0);
    out.push(2);
    out.push(3);
    proof {
        assert(out@ =~= quad_indices());
    }
    out
}

} // verus!
