//! The scan loop: one full decode of the first frame, header-only parses of
//! every later frame, stopping at the end of the stream or once the
//! cumulative delay reaches the configured ceiling.

use vstd::prelude::*;

use crate::decode::{
    header_ok, open_decoder, parse_frame_header, read_first_frame, remaining_frames, source_ok,
    stream_frames, stream_global_palette, stream_height, stream_ok, stream_width,
};
use crate::probe::{
    add_frame, area_exceeds, canvas_too_large, ceiling_hit, ceiling_reached, first_frame_alpha,
    frame_declares_used_transparency, header_reveals_background, init_model, later_frame_alpha,
    opt_bytes, raise_max_colors, FrameModel, GifProbe, ProbeError, ProbeLimits, ProbeModel,
    DEFAULT_MEMORY_LIMIT,
};

verus! {

/// No input stream longer than this is probed; the bound keeps the
/// accumulated delay of its frames far below the counter's capacity.
pub const MAX_STREAM_LEN: u64 = 0x1000000000000;

/// The accumulator after the scan has consumed the frames of `rest` that it
/// visits: each is absorbed under the later-frame rule, and the scan stops
/// early right after the frame whose delay reaches the ceiling.
pub open spec fn scan_rest(m: ProbeModel, rest: Seq<FrameModel>, ceiling: Option<u64>) -> ProbeModel
    decreases rest.len(),
{
    if rest.len() == 0 {
        m
    } else {
        let next = add_frame(m, later_frame_alpha(rest[0]), rest[0]);
        if ceiling_hit(next.duration, ceiling) {
            next
        } else {
            scan_rest(next, rest.skip(1), ceiling)
        }
    }
}

/// The accumulator a whole scan produces: the global palette seeds the
/// palette maximum, the first frame is absorbed under the first-frame rule,
/// the ceiling is checked after its delay as after every frame's, and the
/// rest follow under `scan_rest`.
pub open spec fn scan_model(
    global_palette: Option<Seq<u8>>,
    frames: Seq<FrameModel>,
    ceiling: Option<u64>,
) -> ProbeModel {
    if frames.len() == 0 {
        init_model(global_palette)
    } else {
        let opened = add_frame(init_model(global_palette), first_frame_alpha(frames[0]), frames[0]);
        if ceiling_hit(opened.duration, ceiling) {
            opened
        } else {
            scan_rest(opened, frames.skip(1), ceiling)
        }
    }
}

/// The accumulator a scan of the stream `bytes` produces.
pub open spec fn probe_model(bytes: Seq<u8>, ceiling: Option<u64>) -> ProbeModel {
    scan_model(stream_global_palette(bytes), stream_frames(bytes), ceiling)
}

/// The palette maximum never falls while the scan goes on.
proof fn lemma_scan_rest_colors_grow(m: ProbeModel, rest: Seq<FrameModel>, ceiling: Option<u64>)
    ensures
        scan_rest(m, rest, ceiling).max_colors >= m.max_colors,
    decreases rest.len(),
{
    if rest.len() > 0 {
        let next = add_frame(m, later_frame_alpha(rest[0]), rest[0]);
        if !ceiling_hit(next.duration, ceiling) {
            lemma_scan_rest_colors_grow(next, rest.skip(1), ceiling);
        }
    }
}

/// Probes the GIF stream held in `bytes` under the given limits.
///
/// On success the record reports the canvas size the stream declares, and
/// the transparency verdict, palette maximum, cumulative delay and frame
/// count of exactly the visited frames, as `probe_model` states them, with
/// the duration ceiling checked after every frame's delay, the first
/// frame's included.  Success is owed whenever the decoder accepts the
/// whole stream, the canvas is within the pixel cap and every visited
/// palette is reportable.  When the header parses, a canvas over the cap
/// fails with `ImageTooLarge` before any frame is requested; a header the
/// decoder refuses fails with `Decode`; `PaletteOverflow` comes only when
/// a visited palette is too large to report.
pub fn probe_stream(bytes: Vec<u8>, limits: &ProbeLimits) -> (r: Result<GifProbe, ProbeError>)
    requires
        limits.wf(),
        bytes@.len() <= MAX_STREAM_LEN,
    ensures
        r matches Ok(p) ==> {
            &&& p.matches_model(probe_model(bytes@, limits.max_duration))
            &&& p.width == stream_width(bytes@)
            &&& p.height == stream_height(bytes@)
            &&& !canvas_too_large(stream_width(bytes@), stream_height(bytes@), limits.max_pixels)
            &&& probe_model(bytes@, limits.max_duration).max_colors <= u16::MAX
        },
        r matches Err(ProbeError::ImageTooLarge) ==> canvas_too_large(
            stream_width(bytes@),
            stream_height(bytes@),
            limits.max_pixels,
        ),
        header_ok(bytes@, limits.memory_ceiling()) && canvas_too_large(
            stream_width(bytes@),
            stream_height(bytes@),
            limits.max_pixels,
        ) ==> r matches Err(ProbeError::ImageTooLarge),
        !header_ok(bytes@, limits.memory_ceiling()) ==> r matches Err(ProbeError::Decode(_)),
        r matches Err(ProbeError::PaletteOverflow) ==> probe_model(
            bytes@,
            limits.max_duration,
        ).max_colors > u16::MAX,
        stream_ok(bytes@, limits.memory_ceiling()) && !canvas_too_large(
            stream_width(bytes@),
            stream_height(bytes@),
            limits.max_pixels,
        ) && probe_model(bytes@, limits.max_duration).max_colors <= u16::MAX ==> r is Ok,
{
    let ghost input = bytes@;
    let ghost ceiling = limits.max_duration;
    let memory_limit: u64 = match limits.max_memory {
        Some(m) => m,
        None => DEFAULT_MEMORY_LIMIT,
    };
    proof {
        assert(memory_limit == limits.memory_ceiling());
    }
    let (mut source, width, height, global_palette) = match open_decoder(bytes, memory_limit) {
        Ok(t) => t,
        Err(e) => {
            return Err(ProbeError::Decode(e));
        },
    };
    let ghost all = stream_frames(input);
    let ghost target = probe_model(input, ceiling);
    if area_exceeds(width, height, limits.max_pixels) {
        return Err(ProbeError::ImageTooLarge);
    }
    let mut probe = GifProbe { alpha: false, max_colors: 0, duration: 0, frames: 0, width, height };
    probe.max_colors = match raise_max_colors(probe.max_colors, &global_palette) {
        Some(c) => c,
        None => {
            proof {
                if all.len() > 0 {
                    lemma_scan_rest_colors_grow(
                        add_frame(
                            init_model(stream_global_palette(input)),
                            first_frame_alpha(all[0]),
                            all[0],
                        ),
                        all.skip(1),
                        ceiling,
                    );
                }
            }
            return Err(ProbeError::PaletteOverflow);
        },
    };
    let first = match read_first_frame(&mut source) {
        Ok(f) => f,
        Err(e) => {
            return Err(ProbeError::Decode(e));
        },
    };
    let frame = match first {
        Some(f) => f,
        None => {
            return Ok(probe);
        },
    };
    let ghost mut cur = add_frame(
        init_model(stream_global_palette(input)),
        first_frame_alpha(all[0]),
        all[0],
    );
    if frame_declares_used_transparency(&frame) {
        probe.alpha = true;
    }
    probe.max_colors = match raise_max_colors(probe.max_colors, &frame.head.palette) {
        Some(c) => c,
        None => {
            proof {
                lemma_scan_rest_colors_grow(cur, all.skip(1), ceiling);
            }
            return Err(ProbeError::PaletteOverflow);
        },
    };
    probe.duration = probe.duration + frame.head.delay as u64;
    probe.frames = probe.frames + 1;
    if ceiling_reached(probe.duration, limits.max_duration) {
        proof {
            assert(ceiling_hit(cur.duration, ceiling));
            assert(target == cur);
        }
        return Ok(probe);
    }
    let ghost mut visited: int = 1;
    loop
        invariant_except_break
            scan_rest(cur, all.skip(visited), ceiling) == target,
            remaining_frames(source) == all.skip(visited),
        invariant
            1 <= visited <= all.len(),
            all.len() <= MAX_STREAM_LEN,
            probe.matches_model(cur),
            probe.width == stream_width(input),
            probe.height == stream_height(input),
            probe.duration <= 0xFFFF * visited,
            probe.frames == visited,
            ceiling == limits.max_duration,
            target == probe_model(input, ceiling),
            all == stream_frames(input),
            input == bytes@,
            header_ok(input, limits.memory_ceiling()),
            stream_ok(input, limits.memory_ceiling()) ==> source_ok(source),
            !canvas_too_large(stream_width(input), stream_height(input), limits.max_pixels),
        ensures
            probe.matches_model(target),
            probe.width == stream_width(input),
            probe.height == stream_height(input),
            target.max_colors <= u16::MAX,
        decreases all.len() - visited,
    {
        let head = match parse_frame_header(&mut source) {
            Ok(h) => h,
            Err(e) => {
                return Err(ProbeError::Decode(e));
            },
        };
        let head = match head {
            Some(h) => h,
            None => {
                proof {
                    assert(all.skip(visited).len() == 0);
                    assert(scan_rest(cur, all.skip(visited), ceiling) == cur);
                }
                break;
            },
        };
        proof {
            assert(all.skip(visited)[0] == all[visited]);
        }
        let ghost stepped = add_frame(cur, later_frame_alpha(all[visited]), all[visited]);
        if header_reveals_background(&head) {
            probe.alpha = true;
        }
        probe.max_colors = match raise_max_colors(probe.max_colors, &head.palette) {
            Some(c) => c,
            None => {
                proof {
                    let rest = all.skip(visited);
                    assert(opt_bytes(head.palette) == all[visited].local_palette);
                    assert(stepped.max_colors > u16::MAX);
                    if ceiling_hit(stepped.duration, ceiling) {
                        assert(scan_rest(cur, rest, ceiling) == stepped);
                    } else {
                        assert(scan_rest(cur, rest, ceiling) == scan_rest(
                            stepped,
                            rest.skip(1),
                            ceiling,
                        ));
                        lemma_scan_rest_colors_grow(stepped, rest.skip(1), ceiling);
                    }
                    assert(target.max_colors > u16::MAX);
                }
                return Err(ProbeError::PaletteOverflow);
            },
        };
        proof {
            assert(0xFFFF * visited + 0xFFFF == 0xFFFF * (visited + 1));
            assert(0xFFFF * (visited + 1) <= 0xFFFF * 0x1000000000000) by (nonlinear_arith)
                requires
                    visited + 1 <= 0x1000000000000,
            ;
        }
        probe.duration = probe.duration + head.delay as u64;
        probe.frames = probe.frames + 1;
        if ceiling_reached(probe.duration, limits.max_duration) {
            proof {
                assert(ceiling_hit(stepped.duration, ceiling));
                assert(scan_rest(cur, all.skip(visited), ceiling) == stepped);
                cur = stepped;
                visited = visited + 1;
            }
            break;
        }
        proof {
            cur = stepped;
            visited = visited + 1;
            assert(all.skip(visited - 1).skip(1) =~= all.skip(visited));
        }
    }
    Ok(probe)
}

} // verus!
