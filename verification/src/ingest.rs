//! The asset-ingestion pipeline: decoding encoded image bytes off the render
//! thread and carrying the decoded requests into the render loop.
//!
//! Decoding happens on background tasks; the [`IngestQueue`] is the one
//! cross-thread boundary of the engine. Any number of producers push decoded
//! requests, and the render thread drains the queue to empty once per frame
//! before drawing. The queue's contents are modelled as a bag: the order in
//! which requests of different producers meet is some interleaving of decode
//! completion times, not submission order.

use crossbeam::queue::SegQueue;
use image::GenericImageView;

use vstd::multiset::{lemma_multiset_empty_len, Multiset};
use vstd::prelude::*;

use crate::error::RenderError;

verus! {

broadcast use vstd::multiset::group_multiset_axioms;

/// A decoded RGBA pixel buffer and its dimensions.
pub struct TextureData {
    /// Tightly packed RGBA samples, four bytes per pixel.
    pub buffer: Vec<u8>,
    /// Width in pixels.
    pub width: u32,
    /// Height in pixels.
    pub height: u32,
}

impl View for TextureData {
    type V = (Seq<u8>, u32, u32);

    open spec fn view(&self) -> (Seq<u8>, u32, u32) {
        (self.buffer@, self.width, self.height)
    }
}

/// A decoded item waiting to be promoted on the render thread: the pixels
/// plus the item's rendering parameters.
pub struct QueuedItemDefinition {
    /// The decoded texture.
    pub texture_data: TextureData,
    /// Whether to pixelate when rendering.
    pub pixelate: bool,
    /// Relative scale of the item image, fixed-point.
    pub scale: i32,
}

impl View for QueuedItemDefinition {
    type V = (Seq<u8>, u32, u32, bool, i32);

    open spec fn view(&self) -> (Seq<u8>, u32, u32, bool, i32) {
        (
            self.texture_data.buffer@,
            self.texture_data.width,
            self.texture_data.height,
            self.pixelate,
            self.scale,
        )
    }
}

/// The decoded RGBA image of an encoded byte stream: `None` where the bytes
/// are malformed or of an unsupported format, otherwise the width, height
/// and tightly packed RGBA samples. Decoding depends on the bytes alone.
pub uninterp spec fn decoded_rgba(bytes: Seq<u8>) -> Option<(u32, u32, Seq<u8>)>;

/// Relies on `image::load_from_memory` (the format is guessed from the
/// bytes), `DynamicImage::dimensions`, `DynamicImage::to_rgba8` and
/// `ImageBuffer::into_raw`: decoding is a function of the bytes alone, and a
/// successful decode yields a tightly packed RGBA buffer of exactly four
/// bytes per pixel.
#[verifier::external_body]
pub fn load_texture_data(data: Vec<u8>) -> (r: Result<TextureData, RenderError>)
    ensures
        match r {
            Ok(t) => {
                &&& decoded_rgba(data@) == Some((t.width, t.height, t.buffer@))
                &&& t.buffer@.len() == 4 * t.width * t.height
            },
            Err(e) => {
                &&& decoded_rgba(data@) is None
                &&& e == RenderError::DecodeError
            },
        },
{
    match image::load_from_memory(&data) {
        Ok(img) => {
            let (width, height) = img.dimensions();
            let buffer = img.to_rgba8().into_raw();
            Ok(TextureData { buffer, width, height })
        },
        Err(_) => Err(RenderError::DecodeError),
    }
}

#[verifier::external_type_specification]
#[verifier::external_body]
#[verifier::reject_recursive_types(T)]
pub struct ExSegQueue<T>(SegQueue<T>);

/// What the ingest queue currently holds, as a bag of request views.
pub uninterp spec fn queue_contents(q: SegQueue<QueuedItemDefinition>) -> Multiset<
    (Seq<u8>, u32, u32, bool, i32),
>;

/// Relies on crossbeam's `SegQueue::new`: a new queue is empty.
#[verifier::external_body]
fn seg_queue_new() -> (q: SegQueue<QueuedItemDefinition>)
    ensures
        queue_contents(q) == Multiset::<(Seq<u8>, u32, u32, bool, i32)>::empty(),
{
    SegQueue::new()
}

/// Relies on crossbeam's `SegQueue::push`: the pushed value joins the
/// queue's contents and nothing else changes.
#[verifier::external_body]
fn seg_queue_push(q: &mut SegQueue<QueuedItemDefinition>, value: QueuedItemDefinition)
    ensures
        queue_contents(*final(q)) == queue_contents(*old(q)).insert(value@),
{
    q.push(value);
}

/// Relies on crossbeam's `SegQueue::pop`: under exclusive access it removes
/// and returns an element exactly when the queue is non-empty.
#[verifier::external_body]
fn seg_queue_pop(q: &mut SegQueue<QueuedItemDefinition>) -> (r: Option<QueuedItemDefinition>)
    ensures
        match r {
            Some(v) => {
                &&& queue_contents(*old(q)).count(v@) > 0
                &&& queue_contents(*final(q)) == queue_contents(*old(q)).remove(v@)
            },
            None => {
                &&& queue_contents(*old(q)).len() == 0
                &&& queue_contents(*final(q)) == queue_contents(*old(q))
            },
        },
{
    q.pop()
}

/// The bag of request views held by a sequence of drained requests.
pub open spec fn batch_contents(s: Seq<QueuedItemDefinition>) -> Multiset<
    (Seq<u8>, u32, u32, bool, i32),
>
    decreases s.len(),
{
    if s.len() == 0 {
        Multiset::empty()
    } else {
        batch_contents(s.drop_last()).insert(s.last()@)
    }
}

/// The multi-producer/single-consumer boundary between background decode
/// tasks and the render loop. Producers push decoded requests; the render
/// thread drains the queue to empty once per frame, without blocking when it
/// is empty.
pub struct IngestQueue {
    inner: SegQueue<QueuedItemDefinition>,
}

impl View for IngestQueue {
    type V = Multiset<(Seq<u8>, u32, u32, bool, i32)>;

    closed spec fn view(&self) -> Multiset<(Seq<u8>, u32, u32, bool, i32)> {
        queue_contents(self.inner)
    }
}

impl IngestQueue {
    /// An empty queue.
    pub fn new() -> (q: IngestQueue)
        ensures
            q@ == Multiset::<(Seq<u8>, u32, u32, bool, i32)>::empty(),
    {
        IngestQueue { inner: seg_queue_new() }
    }

    /// Accept one decoded request from a producer.
    pub fn push(&mut self, value: QueuedItemDefinition)
        ensures
            final(self)@ == old(self)@.insert(value@),
    {
        seg_queue_push(&mut self.inner, value);
    }

    /// Non-blocking poll: one request if any is present. An empty queue is a
    /// normal, frequent state, not an error.
    pub fn pop(&mut self) -> (r: Option<QueuedItemDefinition>)
        ensures
            match r {
                Some(v) => {
                    &&& old(self)@.count(v@) > 0
                    &&& final(self)@ == old(self)@.remove(v@)
                },
                None => {
                    &&& old(self)@.len() == 0
                    &&& final(self)@ == old(self)@
                },
            },
    {
        seg_queue_pop(&mut self.inner)
    }

    /// Law: draining to empty yields exactly the requests the queue held —
    /// each exactly once, no duplication, no loss — in some order, and
    /// leaves the queue empty.
    pub fn drain(&mut self) -> (out: Vec<QueuedItemDefinition>)
        ensures
            batch_contents(out@) == old(self)@,
            final(self)@ == Multiset::<(Seq<u8>, u32, u32, bool, i32)>::empty(),
    {
        let mut out: Vec<QueuedItemDefinition> = Vec::new();
        loop
            invariant_except_break
                old(self)@ == batch_contents(out@).add(self@),
            ensures
                old(self)@ == batch_contents(out@).add(self@),
                self@.len() == 0,
            decreases self@.len(),
        {
            let ghost q_before = self@;
            let ghost out_before = out@;
            match self.pop() {
                Some(v) => {
                    out.push(v);
                    proof {
                        assert(out@.drop_last() =~= out_before);
                        assert(batch_contents(out@) == batch_contents(out_before).insert(v@));
                        assert(batch_contents(out@).add(self@) =~= batch_contents(out_before).add(
                            q_before,
                        ));
                    }
                },
                None => {
                    break ;
                },
            }
        }
        proof {
            lemma_multiset_empty_len(self@);
            assert(self@ =~= Multiset::<(Seq<u8>, u32, u32, bool, i32)>::empty());
            assert(batch_contents(out@).add(self@) =~= batch_contents(out@));
        }
        out
    }
}

/// Run on a background decode task: decode the encoded bytes of one item
/// definition and enqueue the result. A failed decode yields
/// [`RenderError::DecodeError`], enqueues nothing, and must not take the
/// decode task down.
pub fn decode_and_enqueue(
    queue: &mut IngestQueue,
    data: Vec<u8>,
    pixelate: bool,
    scale: i32,
) -> (r: Result<(), RenderError>)
    ensures
        match r {
            Ok(()) => {
                &&& decoded_rgba(data@) is Some
                &&& decoded_rgba(data@) matches Some((w, h, px)) ==> final(queue)@ == old(
                    queue,
                )@.insert((px, w, h, pixelate, scale))
            },
            Err(e) => {
                &&& e == RenderError::DecodeError
                &&& decoded_rgba(data@) is None
                &&& final(queue)@ == old(queue)@
            },
        },
{
    match load_texture_data(data) {
        Ok(texture_data) => {
            queue.push(QueuedItemDefinition { texture_data, pixelate, scale });
            Ok(())
        },
        Err(e) => Err(e),
    }
}

} // verus!
