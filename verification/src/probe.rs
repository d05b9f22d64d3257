//! The result record of a probe, the per-frame data it consumes, and the
//! small verified decisions the scan is built from.

use vstd::prelude::*;

verus! {

/// What a frame asks to happen to the canvas once its display time is over.
#[derive(Clone, Copy, Debug, PartialEq, Eq, Structural)]
pub enum Disposal {
    /// No request; the decoder may leave the canvas as it is.
    Unspecified,
    /// Keep the frame in place.
    Keep,
    /// Restore the covered area to the background.
    Background,
    /// Restore the covered area to the previous frame.
    Previous,
}

impl Disposal {
    /// The disposal named by a raw code of the stream; unknown codes fall
    /// back to `Unspecified`, as the stream's own default does.
    pub open spec fn spec_from_code(code: u8) -> Disposal {
        if code == 1 {
            Disposal::Keep
        } else if code == 2 {
            Disposal::Background
        } else if code == 3 {
            Disposal::Previous
        } else {
            Disposal::Unspecified
        }
    }

    /// Maps a raw disposal code to its meaning.
    pub fn from_code(code: u8) -> (r: Disposal)
        ensures
            r == Disposal::spec_from_code(code),
    {
        match code {
            1 => Disposal::Keep,
            2 => Disposal::Background,
            3 => Disposal::Previous,
            _ => Disposal::Unspecified,
        }
    }
}

/// The structural metadata of one frame: everything a header-only parse
/// yields, with the palette carried as raw byte triplets.
pub struct FrameHead {
    pub width: u16,
    pub height: u16,
    /// Display duration in hundredths of a second.
    pub delay: u16,
    pub disposal: Disposal,
    /// The declared transparent colour index, if any.
    pub transparent: Option<u8>,
    /// The frame's local palette as flat RGB triplets, if it has one.
    pub palette: Option<Vec<u8>>,
}

/// A fully decoded frame: its header plus one palette index per pixel.
pub struct FrameData {
    pub head: FrameHead,
    pub pixels: Vec<u8>,
}

/// The mathematical picture of one frame of the stream.
pub ghost struct FrameModel {
    pub width: u16,
    pub height: u16,
    pub delay: u16,
    pub disposal: Disposal,
    pub transparent: Option<u8>,
    pub local_palette: Option<Seq<u8>>,
    pub pixels: Seq<u8>,
}

impl FrameHead {
    /// Builds a header from its parts.
    pub fn new(
        width: u16,
        height: u16,
        delay: u16,
        disposal: Disposal,
        transparent: Option<u8>,
        palette: Option<Vec<u8>>,
    ) -> (r: FrameHead)
        ensures
            r.width == width,
            r.height == height,
            r.delay == delay,
            r.disposal == disposal,
            r.transparent == transparent,
            r.palette == palette,
    {
        FrameHead { width, height, delay, disposal, transparent, palette }
    }

    /// The header carries exactly the structural fields of the frame `f`.
    pub open spec fn matches_header(self, f: FrameModel) -> bool {
        &&& self.width == f.width
        &&& self.height == f.height
        &&& self.delay == f.delay
        &&& self.disposal == f.disposal
        &&& self.transparent == f.transparent
        &&& opt_bytes(self.palette) == f.local_palette
    }
}

impl FrameData {
    /// Builds a decoded frame from its header and pixel buffer.
    pub fn new(head: FrameHead, pixels: Vec<u8>) -> (r: FrameData)
        ensures
            r.head == head,
            r.pixels == pixels,
    {
        FrameData { head, pixels }
    }

    /// The record carries exactly the frame `f`, pixels included.
    pub open spec fn matches_frame(self, f: FrameModel) -> bool {
        self.head.matches_header(f) && self.pixels@ == f.pixels
    }
}

/// The byte view of an optional palette.
pub open spec fn opt_bytes(p: Option<Vec<u8>>) -> Option<Seq<u8>> {
    match p {
        Option::Some(v) => Option::Some(v@),
        Option::None => Option::None,
    }
}

/// What one probe reports: the transparency verdict and the totals
/// accumulated over the visited frames.
#[derive(Clone, Copy, Debug, PartialEq, Eq, Structural)]
pub struct GifProbe {
    /// True once any transparency rule has fired; never reset.
    pub alpha: bool,
    /// Largest palette seen, counted in RGB entries.
    pub max_colors: u16,
    /// Sum of the visited frames' delays, in hundredths of a second.
    pub duration: u64,
    /// Number of frames actually visited.
    pub frames: u64,
    /// Canvas width, fixed when the stream is opened.
    pub width: u16,
    /// Canvas height, fixed when the stream is opened.
    pub height: u16,
}

/// The accumulator of a scan, over unbounded integers.
pub ghost struct ProbeModel {
    pub alpha: bool,
    pub max_colors: int,
    pub duration: int,
    pub frames: int,
}

impl GifProbe {
    /// The record agrees with the accumulator model `m`.
    pub open spec fn matches_model(self, m: ProbeModel) -> bool {
        &&& self.alpha == m.alpha
        &&& self.max_colors as int == m.max_colors
        &&& self.duration as int == m.duration
        &&& self.frames as int == m.frames
    }
}

/// The limits a caller may put on a probe.
#[derive(Clone, Copy, Debug)]
pub struct ProbeLimits {
    /// Stop scanning once the cumulative delay reaches this many ticks.
    pub max_duration: Option<u64>,
    /// Refuse the stream if its canvas holds more pixels than this.
    pub max_pixels: Option<u64>,
    /// Cap on the decoder's allocations, in bytes; 20 MiB when unset.
    pub max_memory: Option<u64>,
}

/// The decoder's allocation ceiling when none is configured.
pub const DEFAULT_MEMORY_LIMIT: u64 = 20 * 1024 * 1024;

impl ProbeLimits {
    /// A configured memory cap must name a positive number of bytes.
    pub open spec fn wf(self) -> bool {
        self.max_memory matches Some(m) ==> m > 0
    }

    /// The allocation ceiling the decoder is opened with: the configured
    /// cap, or the default when none is set.
    pub open spec fn memory_ceiling(self) -> u64 {
        match self.max_memory {
            Option::Some(m) => m,
            Option::None => DEFAULT_MEMORY_LIMIT,
        }
    }

    /// Limits that bound nothing.
    pub fn unbounded() -> (r: ProbeLimits)
        ensures
            r.max_duration is None,
            r.max_pixels is None,
            r.max_memory is None,
            r.wf(),
    {
        ProbeLimits { max_duration: None, max_pixels: None, max_memory: None }
    }
}

/// How a probe fails.  Every failure is fatal to the whole probe: there is
/// no partial result.
#[derive(Debug)]
pub enum ProbeError {
    /// The stream is malformed; the decoder's own error is kept.
    Decode(gif::DecodingError),
    /// The canvas holds more pixels than the configured cap allows.
    ImageTooLarge,
    /// A palette reports more entries than the result field can carry.
    PaletteOverflow,
}

impl ProbeError {
    /// True for a decoder failure.
    pub fn is_decode(&self) -> (r: bool)
        ensures
            r == (self is Decode),
    {
        match self {
            ProbeError::Decode(_) => true,
            _ => false,
        }
    }

    /// True for a canvas over the pixel cap.
    pub fn is_image_too_large(&self) -> (r: bool)
        ensures
            r == (self is ImageTooLarge),
    {
        match self {
            ProbeError::ImageTooLarge => true,
            _ => false,
        }
    }

    /// True for a palette too large to report.
    pub fn is_palette_overflow(&self) -> (r: bool)
        ensures
            r == (self is PaletteOverflow),
    {
        match self {
            ProbeError::PaletteOverflow => true,
            _ => false,
        }
    }
}

/// The first frame shows transparency when it declares a transparent index
/// that really occurs among its decoded pixels.
pub open spec fn first_frame_alpha(f: FrameModel) -> bool {
    f.transparent matches Some(t) && f.pixels.contains(t)
}

/// A later frame introduces transparency when it restores a non-empty area
/// to the background.
pub open spec fn later_frame_alpha(f: FrameModel) -> bool {
    f.disposal == Disposal::Background && f.width > 0 && f.height > 0
}

/// Entry count of an optional palette stored as RGB triplets.
pub open spec fn palette_colors_opt(p: Option<Seq<u8>>) -> int {
    match p {
        Option::Some(s) => s.len() as int / 3,
        Option::None => 0,
    }
}

/// The palette maximum after seeing `p` on top of `current`.
pub open spec fn raised_colors(current: int, p: Option<Seq<u8>>) -> int {
    if palette_colors_opt(p) > current {
        palette_colors_opt(p)
    } else {
        current
    }
}

/// The accumulator before any frame: no transparency, no time, no frames,
/// and the global palette, if present, seeding the palette maximum.
pub open spec fn init_model(global_palette: Option<Seq<u8>>) -> ProbeModel {
    ProbeModel {
        alpha: false,
        max_colors: palette_colors_opt(global_palette),
        duration: 0,
        frames: 0,
    }
}

/// One frame's bookkeeping: the transparency flag absorbs `fires`, the
/// palette maximum absorbs the frame's local palette, the delay is added
/// and the frame is counted.
pub open spec fn add_frame(m: ProbeModel, fires: bool, f: FrameModel) -> ProbeModel {
    ProbeModel {
        alpha: m.alpha || fires,
        max_colors: raised_colors(m.max_colors, f.local_palette),
        duration: m.duration + f.delay,
        frames: m.frames + 1,
    }
}

/// The duration ceiling has been reached.
pub open spec fn ceiling_hit(duration: int, limit: Option<u64>) -> bool {
    limit matches Some(l) && duration >= l
}

/// The canvas area exceeds the configured pixel cap.
pub open spec fn canvas_too_large(width: u16, height: u16, limit: Option<u64>) -> bool {
    limit matches Some(m) && (width as int) * (height as int) > m
}

/// Whether `index` occurs in `buffer`.
pub fn contains_index(buffer: &Vec<u8>, index: u8) -> (r: bool)
    ensures
        r == buffer@.contains(index),
{
    let mut i: usize = 0;
    while i < buffer.len()
        invariant
            0 <= i <= buffer@.len(),
            forall|j: int| 0 <= j < i ==> buffer@[j] != index,
        decreases buffer@.len() - i,
    {
        if buffer[i] == index {
            assert(buffer@.contains(index)) by {
                assert(buffer@[i as int] == index);
            }
            return true;
        }
        i = i + 1;
    }
    false
}

/// Rule A: the frame declares a transparent index and that index really
/// occurs in its pixel buffer.
pub fn frame_declares_used_transparency(frame: &FrameData) -> (r: bool)
    ensures
        r == (frame.head.transparent matches Some(t) && frame.pixels@.contains(t)),
{
    match frame.head.transparent {
        Some(t) => contains_index(&frame.pixels, t),
        None => false,
    }
}

/// Rule B: the frame restores a non-empty area to the background.
pub fn header_reveals_background(head: &FrameHead) -> (r: bool)
    ensures
        r == (head.disposal == Disposal::Background && head.width > 0 && head.height > 0),
{
    head.disposal == Disposal::Background && head.width > 0 && head.height > 0
}

/// Entry count of a palette of `byte_len` raw bytes, three per entry, or
/// `None` when the count does not fit the result field.
pub fn palette_color_count(byte_len: usize) -> (r: Option<u16>)
    ensures
        r matches Some(c) ==> c as int == byte_len as int / 3,
        r is Some <==> byte_len as int / 3 <= u16::MAX,
{
    let entries: usize = byte_len / 3;
    if entries > 65535 {
        None
    } else {
        Some(entries as u16)
    }
}

/// The palette maximum after absorbing an optional palette, or `None` when
/// that palette has too many entries to report.
pub fn raise_max_colors(current: u16, palette: &Option<Vec<u8>>) -> (r: Option<u16>)
    ensures
        r matches Some(c) ==> c as int == raised_colors(current as int, opt_bytes(*palette)),
        r is Some <==> raised_colors(current as int, opt_bytes(*palette)) <= u16::MAX,
{
    match palette {
        Some(p) => {
            match palette_color_count(p.len()) {
                Some(c) => if c > current {
                    Some(c)
                } else {
                    Some(current)
                },
                None => None,
            }
        },
        None => Some(current),
    }
}

/// Whether the cumulative `duration` has reached the configured ceiling.
pub fn ceiling_reached(duration: u64, limit: Option<u64>) -> (r: bool)
    ensures
        r == ceiling_hit(duration as int, limit),
{
    match limit {
        Some(l) => duration >= l,
        None => false,
    }
}

/// Whether the canvas holds more pixels than the configured cap allows.
pub fn area_exceeds(width: u16, height: u16, limit: Option<u64>) -> (r: bool)
    ensures
        r == canvas_too_large(width, height, limit),
{
    match limit {
        Some(m) => {
            proof {
                assert((width as int) * (height as int) <= 0xFFFF * 0xFFFF) by (nonlinear_arith)
                    requires
                        width <= 0xFFFF,
                        height <= 0xFFFF,
                ;
            }
            let area: u64 = (width as u64) * (height as u64);
            area > m
        },
        None => false,
    }
}

} // verus!
