use std::io::Cursor;

use image::{ImageBuffer, ImageFormat, Rgba};

use throw_overlay::error::RenderError;
use throw_overlay::ingest::{
    decode_and_enqueue, load_texture_data, IngestQueue, QueuedItemDefinition, TextureData,
};

fn request(width: u32, height: u32) -> QueuedItemDefinition {
    QueuedItemDefinition {
        texture_data: TextureData {
            buffer: vec![0u8; (4 * width * height) as usize],
            width,
            height,
        },
        pixelate: false,
        scale: 1_000_000,
    }
}

fn png_bytes(width: u32, height: u32, pixel: [u8; 4]) -> Vec<u8> {
    let img: ImageBuffer<Rgba<u8>, Vec<u8>> = ImageBuffer::from_pixel(width, height, Rgba(pixel));
    let mut out = Vec::new();
    img.write_to(&mut Cursor::new(&mut out), ImageFormat::Png).unwrap();
    out
}

#[test]
fn pop_on_empty_queue_is_none() {
    let mut queue = IngestQueue::new();
    assert!(queue.pop().is_none());
}

#[test]
fn drain_yields_each_pushed_request_exactly_once() {
    let mut queue = IngestQueue::new();
    let widths = [7u32, 3, 11, 5, 9];
    for w in widths {
        queue.push(request(w, 2));
    }

    let batch = queue.drain();
    assert_eq!(batch.len(), widths.len());

    let mut seen: Vec<u32> = batch.iter().map(|q| q.texture_data.width).collect();
    seen.sort();
    let mut expected = widths.to_vec();
    expected.sort();
    assert_eq!(seen, expected);

    // Drained to empty: a second drain finds nothing.
    assert!(queue.pop().is_none());
    assert!(queue.drain().is_empty());
}

#[test]
fn decode_round_trips_a_png() {
    let bytes = png_bytes(2, 2, [10, 20, 30, 255]);
    let texture = load_texture_data(bytes).unwrap();
    assert_eq!(texture.width, 2);
    assert_eq!(texture.height, 2);
    assert_eq!(texture.buffer.len(), 16);
    assert_eq!(texture.buffer, vec![10, 20, 30, 255].repeat(4));
}

#[test]
fn corrupt_bytes_decode_to_an_error_and_enqueue_nothing() {
    let mut queue = IngestQueue::new();
    let corrupt = vec![0xBAu8, 0xD0, 0xBA, 0xD0, 0xBA, 0xD0];
    let r = decode_and_enqueue(&mut queue, corrupt, false, 1_000_000);
    assert!(matches!(r, Err(RenderError::DecodeError)));
    assert!(queue.drain().is_empty());
}

#[test]
fn successful_decode_enqueues_exactly_one_request() {
    let mut queue = IngestQueue::new();
    let bytes = png_bytes(3, 1, [1, 2, 3, 4]);
    decode_and_enqueue(&mut queue, bytes, true, 2_000_000).unwrap();

    let batch = queue.drain();
    assert_eq!(batch.len(), 1);
    assert_eq!(batch[0].texture_data.width, 3);
    assert_eq!(batch[0].texture_data.height, 1);
    assert_eq!(batch[0].texture_data.buffer, vec![1, 2, 3, 4].repeat(3));
    assert!(batch[0].pixelate);
    assert_eq!(batch[0].scale, 2_000_000);
}

#[test]
fn truncated_image_decodes_to_an_error() {
    let mut bytes = png_bytes(4, 4, [9, 9, 9, 9]);
    bytes.truncate(bytes.len() / 2);
    let r = load_texture_data(bytes);
    assert!(matches!(r, Err(RenderError::DecodeError)));
}
