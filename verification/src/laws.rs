//! What the scan guarantees, stated directly and proved.
//!
//! The scan visits a prefix of the stream's frames.  The lemmas here pin
//! that prefix down and restate each accumulated field of the result in
//! closed form over it: the duration as an exact sum, the palette maximum
//! as a true maximum, and the transparency verdict as the two rules it can
//! come from.

use vstd::prelude::*;

use crate::probe::{
    add_frame, ceiling_hit, first_frame_alpha, init_model, later_frame_alpha, palette_colors_opt,
    raised_colors, FrameModel, ProbeModel,
};
use crate::scan::{scan_model, scan_rest};

verus! {

/// Whether the frame at position `j` fires a transparency rule when it is
/// visited: the first frame under the declared-and-used rule, every later
/// one under the background-disposal rule.
pub open spec fn frame_fires(frames: Seq<FrameModel>, j: int) -> bool {
    if j == 0 {
        first_frame_alpha(frames[0])
    } else {
        later_frame_alpha(frames[j])
    }
}

/// The accumulator after the first `n` frames, with no ceiling applied.
pub open spec fn scan_prefix(gp: Option<Seq<u8>>, frames: Seq<FrameModel>, n: int) -> ProbeModel
    decreases n,
{
    if n <= 0 {
        init_model(gp)
    } else {
        add_frame(scan_prefix(gp, frames, n - 1), frame_fires(frames, n - 1), frames[n - 1])
    }
}

/// The sum of the delays of the first `n` frames.
pub open spec fn total_delay(frames: Seq<FrameModel>, n: int) -> int
    decreases n,
{
    if n <= 0 {
        0
    } else {
        total_delay(frames, n - 1) + frames[n - 1].delay
    }
}

/// The largest palette among the global one and the local palettes of the
/// first `n` frames, in entries.
pub open spec fn peak_colors(gp: Option<Seq<u8>>, frames: Seq<FrameModel>, n: int) -> int
    decreases n,
{
    if n <= 0 {
        palette_colors_opt(gp)
    } else {
        raised_colors(peak_colors(gp, frames, n - 1), frames[n - 1].local_palette)
    }
}

/// Whether any of the first `n` frames fires a transparency rule.
pub open spec fn shows_alpha(frames: Seq<FrameModel>, n: int) -> bool
    decreases n,
{
    if n <= 0 {
        false
    } else {
        shows_alpha(frames, n - 1) || frame_fires(frames, n - 1)
    }
}

/// Each accumulated field of the prefix state, in closed form.
pub proof fn lemma_prefix_counts(gp: Option<Seq<u8>>, frames: Seq<FrameModel>, n: int)
    requires
        0 <= n,
    ensures
        scan_prefix(gp, frames, n).frames == n,
        scan_prefix(gp, frames, n).duration == total_delay(frames, n),
        scan_prefix(gp, frames, n).max_colors == peak_colors(gp, frames, n),
        scan_prefix(gp, frames, n).alpha == shows_alpha(frames, n),
    decreases n,
{
    if n > 0 {
        lemma_prefix_counts(gp, frames, n - 1);
    }
}

/// `shows_alpha` unfolded into the two rules it is built from.
pub proof fn lemma_shows_alpha_iff(frames: Seq<FrameModel>, n: int)
    requires
        0 <= n <= frames.len(),
    ensures
        shows_alpha(frames, n) <==> ((n >= 1 && first_frame_alpha(frames[0])) || exists|j: int|
            1 <= j < n && later_frame_alpha(#[trigger] frames[j])),
    decreases n,
{
    if n > 0 {
        lemma_shows_alpha_iff(frames, n - 1);
        if shows_alpha(frames, n) {
            if shows_alpha(frames, n - 1) {
                if !(n - 1 >= 1 && first_frame_alpha(frames[0])) {
                    let j = choose|j: int| 1 <= j < n - 1 && later_frame_alpha(#[trigger] frames[j]);
                    assert(1 <= j < n && later_frame_alpha(frames[j]));
                }
            } else {
                assert(frame_fires(frames, n - 1));
                if n - 1 > 0 {
                    assert(1 <= n - 1 < n && later_frame_alpha(frames[n - 1]));
                }
            }
        }
        if (n >= 1 && first_frame_alpha(frames[0])) || exists|j: int|
            1 <= j < n && later_frame_alpha(#[trigger] frames[j]) {
            if n >= 1 && first_frame_alpha(frames[0]) {
                if n == 1 {
                    assert(frame_fires(frames, 0));
                }
            } else {
                let j = choose|j: int| 1 <= j < n && later_frame_alpha(#[trigger] frames[j]);
                if j == n - 1 {
                    assert(frame_fires(frames, n - 1));
                }
            }
        }
    }
}

/// The peak is a true maximum: no palette among the global one and the
/// first `n` local palettes is larger, and one of them reaches it.
pub proof fn lemma_peak_colors_is_max(gp: Option<Seq<u8>>, frames: Seq<FrameModel>, n: int)
    requires
        0 <= n <= frames.len(),
    ensures
        peak_colors(gp, frames, n) >= palette_colors_opt(gp),
        forall|j: int| 0 <= j < n ==> peak_colors(gp, frames, n) >= palette_colors_opt(
            #[trigger] frames[j].local_palette,
        ),
        peak_colors(gp, frames, n) == palette_colors_opt(gp) || exists|j: int|
            0 <= j < n && peak_colors(gp, frames, n) == palette_colors_opt(
                #[trigger] frames[j].local_palette,
            ),
    decreases n,
{
    if n > 0 {
        lemma_peak_colors_is_max(gp, frames, n - 1);
        if peak_colors(gp, frames, n) != peak_colors(gp, frames, n - 1) {
            assert(peak_colors(gp, frames, n) == palette_colors_opt(
                frames[n - 1].local_palette,
            ));
        }
    }
}

/// The tail of a scan continues exactly along prefix states: starting after
/// `k` frames it ends in some prefix state, having stopped early only right
/// after the frame whose accumulated delay reached the ceiling.
proof fn lemma_rest_shape(
    gp: Option<Seq<u8>>,
    frames: Seq<FrameModel>,
    ceiling: Option<u64>,
    k: int,
)
    requires
        1 <= k <= frames.len(),
    ensures
        ({
            let r = scan_rest(scan_prefix(gp, frames, k), frames.skip(k), ceiling);
            &&& k <= r.frames <= frames.len()
            &&& r == scan_prefix(gp, frames, r.frames)
            &&& forall|j: int|
                k < j < r.frames ==> !ceiling_hit(
                    (#[trigger] scan_prefix(gp, frames, j)).duration,
                    ceiling,
                )
            &&& (r.frames < frames.len() ==> k < r.frames && ceiling_hit(
                scan_prefix(gp, frames, r.frames).duration,
                ceiling,
            ))
        }),
    decreases frames.len() - k,
{
    lemma_prefix_counts(gp, frames, k);
    let m = scan_prefix(gp, frames, k);
    let rest = frames.skip(k);
    if rest.len() == 0 {
        assert(scan_rest(m, rest, ceiling) == m);
    } else {
        assert(rest[0] == frames[k]);
        let next = add_frame(m, later_frame_alpha(frames[k]), frames[k]);
        assert(frame_fires(frames, k) == later_frame_alpha(frames[k]));
        assert(next == scan_prefix(gp, frames, k + 1));
        lemma_prefix_counts(gp, frames, k + 1);
        if ceiling_hit(next.duration, ceiling) {
            assert(scan_rest(m, rest, ceiling) == next);
        } else {
            assert(rest.skip(1) =~= frames.skip(k + 1));
            lemma_rest_shape(gp, frames, ceiling, k + 1);
            assert(scan_rest(m, rest, ceiling) == scan_rest(
                scan_prefix(gp, frames, k + 1),
                frames.skip(k + 1),
                ceiling,
            ));
        }
    }
}

/// The whole scan reaches a prefix state: it visits the first `frames`
/// frames of the stream for some count within the stream's length, visits
/// at least one frame when the stream has one, goes past a frame only when
/// that frame left the accumulated delay under the ceiling, and stops short
/// of the end only right after the frame whose delay reached it.
pub proof fn law_scan_visits_prefix(
    gp: Option<Seq<u8>>,
    frames: Seq<FrameModel>,
    ceiling: Option<u64>,
)
    ensures
        ({
            let r = scan_model(gp, frames, ceiling);
            &&& 0 <= r.frames <= frames.len()
            &&& (frames.len() == 0 ==> r.frames == 0)
            &&& (frames.len() > 0 ==> 1 <= r.frames)
            &&& r == scan_prefix(gp, frames, r.frames)
            &&& forall|j: int|
                1 <= j < r.frames ==> !ceiling_hit(
                    (#[trigger] scan_prefix(gp, frames, j)).duration,
                    ceiling,
                )
            &&& (r.frames < frames.len() ==> 1 <= r.frames && ceiling_hit(
                scan_prefix(gp, frames, r.frames).duration,
                ceiling,
            ))
        }),
{
    if frames.len() == 0 {
        assert(scan_model(gp, frames, ceiling) == init_model(gp));
    } else {
        assert(frame_fires(frames, 0) == first_frame_alpha(frames[0]));
        assert(scan_prefix(gp, frames, 0) == init_model(gp));
        assert(scan_prefix(gp, frames, 1) == add_frame(
            init_model(gp),
            first_frame_alpha(frames[0]),
            frames[0],
        ));
        lemma_prefix_counts(gp, frames, 1);
        if ceiling_hit(scan_prefix(gp, frames, 1).duration, ceiling) {
            assert(scan_model(gp, frames, ceiling) == scan_prefix(gp, frames, 1));
        } else {
            lemma_rest_shape(gp, frames, ceiling, 1);
        }
    }
}

/// Transparency is reported exactly when the first frame declares a
/// transparent index that occurs in its pixels, or some visited later frame
/// restores a non-empty area to the background.
pub proof fn law_alpha_characterised(
    gp: Option<Seq<u8>>,
    frames: Seq<FrameModel>,
    ceiling: Option<u64>,
)
    ensures
        ({
            let r = scan_model(gp, frames, ceiling);
            r.alpha <==> ((frames.len() >= 1 && first_frame_alpha(frames[0])) || exists|j: int|
                1 <= j < r.frames && later_frame_alpha(#[trigger] frames[j]))
        }),
{
    law_scan_visits_prefix(gp, frames, ceiling);
    let r = scan_model(gp, frames, ceiling);
    lemma_prefix_counts(gp, frames, r.frames);
    lemma_shows_alpha_iff(frames, r.frames);
}

/// A single-frame stream that declares no transparent colour index shows no
/// transparency.
pub proof fn law_single_frame_without_declaration(
    gp: Option<Seq<u8>>,
    frames: Seq<FrameModel>,
    ceiling: Option<u64>,
)
    requires
        frames.len() == 1,
        frames[0].transparent is None,
    ensures
        !scan_model(gp, frames, ceiling).alpha,
{
    law_alpha_characterised(gp, frames, ceiling);
    law_scan_visits_prefix(gp, frames, ceiling);
}

/// A first frame that declares a transparent index occurring in its decoded
/// pixels makes the stream transparent.
pub proof fn law_declared_and_used_transparency(
    gp: Option<Seq<u8>>,
    frames: Seq<FrameModel>,
    ceiling: Option<u64>,
)
    requires
        frames.len() >= 1,
        first_frame_alpha(frames[0]),
    ensures
        scan_model(gp, frames, ceiling).alpha,
{
    law_alpha_characterised(gp, frames, ceiling);
}

/// A declared transparent index that never occurs in the first frame's
/// pixels does not count, as long as no later frame restores a non-empty
/// area to the background.
pub proof fn law_unused_declaration_stays_opaque(
    gp: Option<Seq<u8>>,
    frames: Seq<FrameModel>,
    ceiling: Option<u64>,
)
    requires
        frames.len() >= 1,
        !first_frame_alpha(frames[0]),
        forall|j: int| 1 <= j < frames.len() ==> !later_frame_alpha(#[trigger] frames[j]),
    ensures
        !scan_model(gp, frames, ceiling).alpha,
{
    law_alpha_characterised(gp, frames, ceiling);
    law_scan_visits_prefix(gp, frames, ceiling);
}

/// In an unbounded scan, one frame after the first that restores a
/// non-empty area to the background makes the stream transparent, whatever
/// the first frame holds.
pub proof fn law_background_disposal_shows_through(
    gp: Option<Seq<u8>>,
    frames: Seq<FrameModel>,
    i: int,
)
    requires
        1 <= i < frames.len(),
        later_frame_alpha(frames[i]),
    ensures
        scan_model(gp, frames, None).alpha,
{
    law_alpha_characterised(gp, frames, None);
    law_scan_visits_prefix(gp, frames, None);
    let r = scan_model(gp, frames, None);
    assert(r.frames == frames.len());
    assert(1 <= i < r.frames && later_frame_alpha(frames[i]));
}

/// The reported duration is the exact sum of the delays of the visited
/// frames, and the reported frame count their number.
pub proof fn law_totals_cover_visited_frames(
    gp: Option<Seq<u8>>,
    frames: Seq<FrameModel>,
    ceiling: Option<u64>,
)
    ensures
        ({
            let r = scan_model(gp, frames, ceiling);
            &&& 0 <= r.frames <= frames.len()
            &&& r.duration == total_delay(frames, r.frames)
        }),
{
    law_scan_visits_prefix(gp, frames, ceiling);
    let r = scan_model(gp, frames, ceiling);
    lemma_prefix_counts(gp, frames, r.frames);
}

/// A duration ceiling reached strictly before the last frame truncates the
/// scan: fewer frames than the stream holds are visited, and the reported
/// duration has reached the ceiling.
pub proof fn law_ceiling_truncates_scan(gp: Option<Seq<u8>>, frames: Seq<FrameModel>, limit: u64)
    requires
        exists|j: int| 1 <= j < frames.len() && #[trigger] total_delay(frames, j) >= limit,
    ensures
        ({
            let r = scan_model(gp, frames, Some(limit));
            &&& r.frames < frames.len()
            &&& r.duration >= limit
        }),
{
    law_scan_visits_prefix(gp, frames, Some(limit));
    let r = scan_model(gp, frames, Some(limit));
    lemma_prefix_counts(gp, frames, r.frames);
    let j0 = choose|j: int| 1 <= j < frames.len() && #[trigger] total_delay(frames, j) >= limit;
    lemma_prefix_counts(gp, frames, j0);
    if r.frames == frames.len() {
        assert(!ceiling_hit(scan_prefix(gp, frames, j0).duration, Some(limit)));
        assert(false);
    }
}

/// The reported palette maximum is the largest palette among the global one
/// and the local palettes of the visited frames: none of them is larger,
/// and one of them reaches it.
pub proof fn law_palette_peak(gp: Option<Seq<u8>>, frames: Seq<FrameModel>, ceiling: Option<u64>)
    ensures
        ({
            let r = scan_model(gp, frames, ceiling);
            &&& r.max_colors == peak_colors(gp, frames, r.frames)
            &&& r.max_colors >= palette_colors_opt(gp)
            &&& forall|j: int| 0 <= j < r.frames ==> r.max_colors >= palette_colors_opt(
                #[trigger] frames[j].local_palette,
            )
            &&& (r.max_colors == palette_colors_opt(gp) || exists|j: int|
                0 <= j < r.frames && r.max_colors == palette_colors_opt(
                    #[trigger] frames[j].local_palette,
                ))
        }),
{
    law_scan_visits_prefix(gp, frames, ceiling);
    let r = scan_model(gp, frames, ceiling);
    lemma_prefix_counts(gp, frames, r.frames);
    lemma_peak_colors_is_max(gp, frames, r.frames);
}

} // verus!

