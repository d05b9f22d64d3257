//! The trusted boundary to the `gif` decoder.
//!
//! The decoder is driven over an in-memory byte stream.  What it yields for
//! given bytes is a fixed but unstated function of those bytes and of the
//! configured memory limit: the names below stand for the canvas size, the
//! global palette, the sequence of frames the decoder reads from them, and
//! for whether it accepts the header and the whole stream.  Each wrapper's
//! contract ties one decoder call to those names; everything the probe
//! concludes rests on these contracts and on nothing else about the `gif`
//! crate.

use vstd::prelude::*;

use crate::probe::{Disposal, FrameData, FrameHead, FrameModel};

verus! {

#[verifier::external_type_specification]
#[verifier::external_body]
pub struct ExDecodingError(gif::DecodingError);

/// An open decoder over an in-memory stream.  Declaring `gif::Decoder`
/// itself is refused (its `Read` bound is unknown here), so the decoder is
/// held opaquely; the names and wrappers below are its whole interface.
#[verifier::external_body]
pub struct FrameSource {
    inner: gif::Decoder<std::io::Cursor<Vec<u8>>>,
}

/// The canvas width the decoder reads from the stream's header.
pub uninterp spec fn stream_width(bytes: Seq<u8>) -> u16;

/// The canvas height the decoder reads from the stream's header.
pub uninterp spec fn stream_height(bytes: Seq<u8>) -> u16;

/// The global palette the decoder reads from the stream's header, if any.
pub uninterp spec fn stream_global_palette(bytes: Seq<u8>) -> Option<Seq<u8>>;

/// The frames the decoder yields for the stream, in order: for each, its
/// header fields and its decoded index buffer.
pub uninterp spec fn stream_frames(bytes: Seq<u8>) -> Seq<FrameModel>;

/// Whether the decoder's header parse accepts the stream under the given
/// memory limit.
pub uninterp spec fn header_ok(bytes: Seq<u8>, memory_limit: u64) -> bool;

/// Whether the decoder accepts the whole stream under the given memory
/// limit: the header parses, and every frame is yielded without error,
/// whether decoded in full or header-only.
pub uninterp spec fn stream_ok(bytes: Seq<u8>, memory_limit: u64) -> bool;

/// The frames an open decoder has not yielded yet.
pub uninterp spec fn remaining_frames(d: FrameSource) -> Seq<FrameModel>;

/// Whether an open decoder will yield every one of its remaining frames
/// without error, whether decoded in full or header-only.
pub uninterp spec fn source_ok(d: FrameSource) -> bool;

/// Relies on `gif::DecodeOptions::read_info` over an in-memory cursor, with
/// indexed colour output, frame-consistency checks on, unknown blocks
/// refused and no end-code requirement, and on `Decoder::width`,
/// `Decoder::height` and `Decoder::global_palette` for the header data.
/// The decoder's results are a function of the bytes and the memory limit
/// alone; its acceptance of the header is deterministic; the canvas size is
/// the two little-endian byte pairs that follow the six-byte signature; a
/// frame costs at least one input byte, so the stream holds no more frames
/// than bytes.
#[verifier::external_body]
pub(crate) fn open_decoder(bytes: Vec<u8>, memory_limit: u64) -> (r: Result<
    (FrameSource, u16, u16, Option<Vec<u8>>),
    gif::DecodingError,
>)
    requires
        memory_limit > 0,
    ensures
        r is Ok <==> header_ok(bytes@, memory_limit),
        stream_ok(bytes@, memory_limit) ==> r is Ok,
        r matches Ok(t) ==> {
            &&& t.1 == stream_width(bytes@)
            &&& t.2 == stream_height(bytes@)
            &&& bytes@.len() >= 13
            &&& t.1 as int == bytes@[6] as int + 256 * (bytes@[7] as int)
            &&& t.2 as int == bytes@[8] as int + 256 * (bytes@[9] as int)
            &&& crate::probe::opt_bytes(t.3) == stream_global_palette(bytes@)
            &&& remaining_frames(t.0) == stream_frames(bytes@)
            &&& stream_frames(bytes@).len() <= bytes@.len()
            &&& (stream_ok(bytes@, memory_limit) ==> source_ok(t.0))
        },
{
    let mut opts = gif::DecodeOptions::new();
    opts.set_color_output(gif::ColorOutput::Indexed);
    opts.check_frame_consistency(true);
    opts.allow_unknown_blocks(false);
    opts.check_lzw_end_code(false);
    opts.set_memory_limit(gif::MemoryLimit::Bytes(std::num::NonZeroU64::new(memory_limit).unwrap()));
    let decoder = opts.read_info(std::io::Cursor::new(bytes))?;
    let width = decoder.width();
    let height = decoder.height();
    let palette = decoder.global_palette().map(|p| p.to_vec());
    Ok((FrameSource { inner: decoder }, width, height, palette))
}

/// Relies on `gif::Decoder::read_next_frame`: it decodes the next frame in
/// full, returns `None` only at the end of the stream, succeeds whenever
/// the decoder accepts the whole stream, and with indexed colour output
/// fills the buffer with one palette index per pixel.
#[verifier::external_body]
pub(crate) fn read_first_frame(d: &mut FrameSource) -> (r: Result<
    Option<FrameData>,
    gif::DecodingError,
>)
    ensures
        r matches Ok(Some(f)) ==> {
            &&& remaining_frames(*old(d)).len() > 0
            &&& f.matches_frame(remaining_frames(*old(d))[0])
            &&& remaining_frames(*final(d)) == remaining_frames(*old(d)).skip(1)
        },
        r matches Ok(None::<FrameData>) ==> remaining_frames(*old(d)).len() == 0,
        source_ok(*old(d)) ==> r is Ok && source_ok(*final(d)),
{
    match d.inner.read_next_frame()? {
        Some(f) => Ok(Some(FrameData::new(
            FrameHead::new(f.width, f.height, f.delay, Disposal::from_code(f.dispose as u8),
                f.transparent, f.palette.clone()),
            f.buffer.to_vec(),
        ))),
        None => Ok(None),
    }
}

/// Relies on `gif::Decoder::next_frame_info`: it parses the next frame's
/// header without decoding its pixels, returns the same header fields that
/// a full decode of that frame would, succeeds whenever the decoder accepts
/// the whole stream, and `None` only at the end.
#[verifier::external_body]
pub(crate) fn parse_frame_header(d: &mut FrameSource) -> (r: Result<
    Option<FrameHead>,
    gif::DecodingError,
>)
    ensures
        r matches Ok(Some(h)) ==> {
            &&& remaining_frames(*old(d)).len() > 0
            &&& h.matches_header(remaining_frames(*old(d))[0])
            &&& remaining_frames(*final(d)) == remaining_frames(*old(d)).skip(1)
        },
        r matches Ok(None::<FrameHead>) ==> remaining_frames(*old(d)).len() == 0,
        source_ok(*old(d)) ==> r is Ok && source_ok(*final(d)),
{
    match d.inner.next_frame_info()? {
        Some(f) => Ok(Some(FrameHead::new(f.width, f.height, f.delay,
            Disposal::from_code(f.dispose as u8), f.transparent, f.palette.clone()))),
        None => Ok(None),
    }
}

} // verus!
