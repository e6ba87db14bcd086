use throw_overlay::com::{ComPtr, RefLedger};
use throw_overlay::coords::{lerp_fx, ndc_x, ndc_y, to_screen_space, PixelVec, FX_ONE};
use throw_overlay::item::{
    create_item_index_buffer, create_item_vertex_buffer, ItemDataBuffer, ItemDefinition,
    CONST_BLOCK_BYTES,
};

fn demo_block() -> ItemDataBuffer {
    ItemDataBuffer::create(
        PixelVec { x: 100, y: 100 },
        PixelVec { x: 1920, y: 1080 },
        PixelVec { x: 0, y: 0 },
        PixelVec { x: 960, y: 540 },
        5000,
        FX_ONE as i32,
        1000,
    )
}

#[test]
fn ndc_conversion_of_screen_corners() {
    assert_eq!(ndc_x(0, 1920), -FX_ONE);
    assert_eq!(ndc_x(1920, 1920), FX_ONE);
    assert_eq!(ndc_x(960, 1920), 0);
    assert_eq!(ndc_y(0, 1080), FX_ONE);
    assert_eq!(ndc_y(1080, 1080), -FX_ONE);
    assert_eq!(ndc_y(540, 1080), 0);

    let corner = to_screen_space(PixelVec { x: 0, y: 0 }, PixelVec { x: 1920, y: 1080 });
    assert_eq!((corner.x, corner.y), (-FX_ONE, FX_ONE));
}

#[test]
fn interpolation_endpoints_and_midpoint() {
    // Rising blend.
    assert_eq!(lerp_fx(-FX_ONE, 0, 0, 1000), -FX_ONE);
    assert_eq!(lerp_fx(-FX_ONE, 0, 1000, 1000), 0);
    assert_eq!(lerp_fx(-FX_ONE, 0, 500, 1000), -FX_ONE / 2);
    // Falling blend.
    assert_eq!(lerp_fx(FX_ONE, 0, 500, 1000), FX_ONE / 2);
    // Quarter point of an asymmetric pair.
    assert_eq!(lerp_fx(-250_000, 750_000, 250, 1000), 0);
}

#[test]
fn interpolation_is_monotone_over_time() {
    let mut previous = lerp_fx(-FX_ONE, FX_ONE, 0, 1000);
    let mut t: u32 = 0;
    while t <= 1000 {
        let current = lerp_fx(-FX_ONE, FX_ONE, t, 1000);
        assert!(previous <= current);
        previous = current;
        t += 50;
    }
}

#[test]
fn fresh_item_reports_zero_elapsed_and_start_position() {
    let mut ledger = RefLedger::new();
    let texture = ComPtr::acquire(&mut ledger, 0x100).unwrap();
    let srv = ComPtr::acquire(&mut ledger, 0x200).unwrap();
    let definition = ItemDefinition {
        texture_path: String::from("demo.png"),
        pixelate: false,
        scale: FX_ONE as i32,
    };
    let created_at: u64 = 777;
    let mut item = definition.create_render_item(texture, srv, demo_block(), created_at);

    item.update(created_at);
    assert_eq!(item.item_data.elapsed_time, 0);
    let pos = item.current_position();
    assert_eq!((pos.x, pos.y), (-FX_ONE, FX_ONE));
}

#[test]
fn midflight_position_is_the_ndc_midpoint() {
    // Screen 1920x1080, texture 100x100, start (0,0), end (960,540) in
    // pixels, duration 1000 ms: the pixel endpoints convert to NDC (-1, 1)
    // and (0, 0), so halfway through the position is (-0.5, 0.5).
    let mut ledger = RefLedger::new();
    let texture = ComPtr::acquire(&mut ledger, 0x100).unwrap();
    let srv = ComPtr::acquire(&mut ledger, 0x200).unwrap();
    let definition = ItemDefinition {
        texture_path: String::from("demo.png"),
        pixelate: false,
        scale: FX_ONE as i32,
    };
    let mut item = definition.create_render_item(texture, srv, demo_block(), 0);

    item.update(500);
    assert_eq!(item.item_data.elapsed_time, 500);
    let pos = item.current_position();
    assert_eq!((pos.x, pos.y), (-FX_ONE / 2, FX_ONE / 2));
}

#[test]
fn position_clamps_past_duration() {
    let mut ledger = RefLedger::new();
    let texture = ComPtr::acquire(&mut ledger, 0x100).unwrap();
    let srv = ComPtr::acquire(&mut ledger, 0x200).unwrap();
    let definition = ItemDefinition {
        texture_path: String::from("demo.png"),
        pixelate: true,
        scale: FX_ONE as i32,
    };
    let mut item = definition.create_render_item(texture, srv, demo_block(), 0);

    item.update(5000);
    assert!(item.is_expired());
    let pos = item.current_position();
    assert_eq!((pos.x, pos.y), (0, 0));
}

#[test]
fn constant_block_layout_is_48_bytes_little_endian() {
    let block = demo_block();
    let bytes = block.encode();
    assert_eq!(bytes.len(), CONST_BLOCK_BYTES);
    assert_eq!(bytes.len() % 16, 0);

    // norm_texture_size: 100/1920 and 100/1080 in fixed point.
    let norm_w = (100u64 * 1_000_000 / 1920) as i32;
    let norm_h = (100u64 * 1_000_000 / 1080) as i32;
    assert_eq!(&bytes[0..4], &(norm_w as u32).to_le_bytes());
    assert_eq!(&bytes[4..8], &(norm_h as u32).to_le_bytes());
    // start (0,0) -> NDC (-1, 1); two's-complement little-endian.
    assert_eq!(&bytes[8..12], &((-1_000_000i32) as u32).to_le_bytes());
    assert_eq!(&bytes[12..16], &(1_000_000u32).to_le_bytes());
    // end (960,540) -> NDC (0, 0).
    assert_eq!(&bytes[16..20], &[0, 0, 0, 0]);
    assert_eq!(&bytes[20..24], &[0, 0, 0, 0]);
    // spin speed, scale, duration, elapsed.
    assert_eq!(&bytes[24..28], &5000u32.to_le_bytes());
    assert_eq!(&bytes[28..32], &1_000_000u32.to_le_bytes());
    assert_eq!(&bytes[32..36], &1000u32.to_le_bytes());
    assert_eq!(&bytes[36..40], &[0, 0, 0, 0]);
    // Explicit padding to the 16-byte boundary.
    assert_eq!(&bytes[40..48], &[0u8; 8]);
}

#[test]
fn elapsed_time_is_the_only_field_updated() {
    let mut ledger = RefLedger::new();
    let texture = ComPtr::acquire(&mut ledger, 0x100).unwrap();
    let srv = ComPtr::acquire(&mut ledger, 0x200).unwrap();
    let definition = ItemDefinition {
        texture_path: String::from("demo.png"),
        pixelate: false,
        scale: FX_ONE as i32,
    };
    let mut item = definition.create_render_item(texture, srv, demo_block(), 100);
    let before = item.item_data;
    item.update(350);
    let after = item.item_data;
    assert_eq!(after.elapsed_time, 250);
    assert_eq!(
        ItemDataBuffer { elapsed_time: 0, ..after },
        ItemDataBuffer { elapsed_time: 0, ..before }
    );
}

#[test]
fn quad_geometry_matches_the_unit_quad() {
    let vertices = create_item_vertex_buffer();
    assert_eq!(vertices.len(), 4);
    let half = FX_ONE as i32 / 2;
    let one = FX_ONE as i32;
    assert_eq!((vertices[0].pos_x, vertices[0].pos_y), (-half, -half));
    assert_eq!((vertices[0].tex_u, vertices[0].tex_v), (0, one));
    assert_eq!((vertices[1].pos_x, vertices[1].pos_y), (-half, half));
    assert_eq!((vertices[1].tex_u, vertices[1].tex_v), (0, 0));
    assert_eq!((vertices[2].pos_x, vertices[2].pos_y), (half, half));
    assert_eq!((vertices[2].tex_u, vertices[2].tex_v), (one, 0));
    assert_eq!((vertices[3].pos_x, vertices[3].pos_y), (half, -half));
    assert_eq!((vertices[3].tex_u, vertices[3].tex_v), (one, one));

    let indices = create_item_index_buffer();
    assert_eq!(indices, vec![0, 1, 2, 0, 2, 3]);
}
