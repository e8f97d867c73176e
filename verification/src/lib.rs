//! Hardware-agnostic LED effect engine: effects computed as verified integer
//! arithmetic over RGB pixel buffers.
//!
//! [`Ws2812Fx`] owns a strip's pixels and up to ten segments, each animated by
//! one [`Effect`]. Call [`Ws2812Fx::service`] from the main loop with the
//! current time, then hand [`Ws2812Fx::iter`] to a driver when it returns
//! `true`. To drive effects from an engine of your own, step an effect into a
//! buffer you keep with [`Effect::step`].

pub mod effect;
pub mod effects;
pub mod laws;
pub mod params;
pub mod pixel;
pub mod segment;
pub mod utils;

use vstd::prelude::*;

pub use effect::Effect;
pub use params::{Palette16, Params};
pub use pixel::{Pixel, RGB8};
pub use segment::{EffectConfig, EffectState, Segment, SegmentOptions};

use crate::effect::{lemma_view_bounds, lemma_view_len_split, view_len};
use crate::effects::Frame;
use crate::utils::{black, rgb_of, solid};

verus! {

/// How many segments a strip holds at most.
pub const MAX_SEGMENTS: usize = 10;

#[verifier::external_type_specification]
#[verifier::external_body]
#[verifier::reject_recursive_types(T)]
pub struct ExHeaplessVec<T, const N: usize>(heapless::Vec<T, N>);

/// The segments a `heapless::Vec` holds, in order.
pub uninterp spec fn held_segments(v: heapless::Vec<Segment, MAX_SEGMENTS>) -> Seq<Segment>;

/// Calls `heapless::Vec::new`, which starts with no segments.
#[verifier::external_body]
fn segments_new() -> (v: heapless::Vec<Segment, MAX_SEGMENTS>)
    ensures
        held_segments(v) == Seq::<Segment>::empty(),
{
    heapless::Vec::new()
}

/// Calls `heapless::Vec::len`: the number of segments held, never more than
/// the capacity.
#[verifier::external_body]
fn segments_len(v: &heapless::Vec<Segment, MAX_SEGMENTS>) -> (n: usize)
    ensures
        n == held_segments(*v).len(),
        n <= MAX_SEGMENTS,
{
    v.len()
}

/// Calls `heapless::Vec::push`: below capacity the segment is appended and
/// `Ok` returned; at capacity the vector is unchanged and the segment handed
/// back in `Err`. It never panics.
#[verifier::external_body]
fn segments_push(v: &mut heapless::Vec<Segment, MAX_SEGMENTS>, segment: Segment) -> (rejected: Option<Segment>)
    ensures
        rejected is None <==> held_segments(*old(v)).len() < MAX_SEGMENTS,
        rejected is None ==> held_segments(*final(v)) == held_segments(*old(v)).push(segment),
        rejected is Some ==> rejected == Some(segment) && held_segments(*final(v)) == held_segments(*old(v)),
    no_unwind
{
    v.push(segment).err()
}

/// Reads segment `i` through the vector's slice indexing.
#[verifier::external_body]
fn segments_get(v: &heapless::Vec<Segment, MAX_SEGMENTS>, i: usize) -> (segment: Segment)
    requires
        i < held_segments(*v).len(),
    ensures
        segment == held_segments(*v)[i as int],
{
    v[i]
}

/// Replaces segment `i` through the vector's mutable slice indexing; the
/// others stay as they were. In bounds, the indexing does not panic.
#[verifier::external_body]
fn segments_set(v: &mut heapless::Vec<Segment, MAX_SEGMENTS>, i: usize, segment: Segment)
    requires
        i < held_segments(*old(v)).len(),
    ensures
        held_segments(*final(v)) == held_segments(*old(v)).update(i as int, segment),
    no_unwind
{
    v[i] = segment;
}

/// One past the last pixel of `segment` on a strip of `n` pixels.
pub open spec fn segment_end(segment: Segment, n: nat) -> int {
    if segment.stop + 1 < n {
        segment.stop + 1
    } else {
        n as int
    }
}

/// A segment the strip can animate: its range lies on the strip of `n`
/// pixels and, when that run is not empty, its effect can step from its
/// state on a run of that length.
pub open spec fn segment_fits(segment: Segment, n: nat) -> bool {
    &&& segment.stop < usize::MAX
    &&& segment.start <= segment_end(segment, n)
    &&& segment_end(segment, n) > segment.start ==> segment.effect.accepts(
        segment.state,
        segment_view_len(segment, n),
    )
    &&& segment_end(segment, n) > segment.start ==> segment.effect.len_ok(
        segment_view_len(segment, n),
        segment.params_spec(),
    )
}

/// How many pixels the effect of `segment` draws on its run of a strip of
/// `n` pixels, after grouping.
pub open spec fn segment_view_len(segment: Segment, n: nat) -> nat {
    view_len((segment_end(segment, n) - segment.start) as nat, segment.params_spec().group_len_spec())
}

/// Whether `segment` is due to step at `now_ms`.
pub open spec fn due(segment: Segment, now_ms: u64) -> bool {
    now_ms.wrapping_sub(segment.last_update) >= segment.config.speed as u64
}

/// The strip after `segment` steps once over its run, and the state it
/// steps to.
pub open spec fn rendered(pixels: Seq<RGB8>, segment: Segment) -> Frame {
    let end = segment_end(segment, pixels.len());
    let (drawn, state) = segment.effect.step_frame(
        pixels.subrange(segment.start as int, end),
        segment.state,
        segment.params_spec(),
    );
    (pixels.subrange(0, segment.start as int) + drawn + pixels.subrange(end, pixels.len() as int), state)
}

/// The strip, the segments and whether any stepped, after servicing the
/// segments from `i` on at `now_ms`. A due segment steps when it fits the
/// strip; one that does not (see [`segment_fits`]) is left as it is.
pub open spec fn serviced(pixels: Seq<RGB8>, segments: Seq<Segment>, now_ms: u64, i: nat) -> (
    Seq<RGB8>,
    Seq<Segment>,
    bool,
)
    decreases segments.len() - i,
{
    if i >= segments.len() {
        (pixels, segments, false)
    } else {
        let segment = segments[i as int];
        if due(segment, now_ms) && segment_fits(segment, pixels.len()) {
            let (p, state) = rendered(pixels, segment);
            let next = Segment { state, last_update: now_ms, ..segment };
            let r = serviced(p, segments.update(i as int, next), now_ms, i + 1);
            (r.0, r.1, true)
        } else {
            serviced(pixels, segments, now_ms, i + 1)
        }
    }
}

/// `c` at brightness `brightness / 255`.
pub open spec fn brightened(c: RGB8, brightness: u8) -> RGB8 {
    RGB8 {
        r: (c.r * brightness / 255) as u8,
        g: (c.g * brightness / 255) as u8,
        b: (c.b * brightness / 255) as u8,
    }
}

fn scale_by(c: u8, brightness: u8) -> (s: u8)
    ensures
        s == (c * brightness / 255) as u8,
{
    assert((c as u16) * (brightness as u16) <= 65025) by (nonlinear_arith)
        requires
            c <= 255,
            brightness <= 255,
    ;
    ((c as u16) * (brightness as u16) / 255) as u8
}

/// Hardware-agnostic effect engine for a strip of `N` LEDs.
///
/// `N` is the number of LEDs on the strip. Call [`service`](Self::service) from
/// your main loop with the current timestamp, then feed [`iter`](Self::iter) to
/// your driver when it returns `true`.
pub struct Ws2812Fx<const N: usize> {
    pixels: Vec<RGB8>,
    segments: heapless::Vec<Segment, MAX_SEGMENTS>,
    brightness: u8,
}

/// The effect engine under the name the documentation uses.
pub type StripFx<const N: usize> = Ws2812Fx<N>;

impl<const N: usize> Ws2812Fx<N> {
    /// The pixels as stored, at full brightness.
    pub closed spec fn pixels_spec(&self) -> Seq<RGB8> {
        self.pixels@
    }

    /// The segments, in the order they step.
    pub closed spec fn segments_spec(&self) -> Seq<Segment> {
        held_segments(self.segments)
    }

    /// The brightness applied on the way out.
    pub closed spec fn brightness_spec(&self) -> u8 {
        self.brightness
    }

    /// A strip of `N` pixels with at most [`MAX_SEGMENTS`] segments.
    #[verifier::type_invariant]
    closed spec fn wf(&self) -> bool {
        &&& self.pixels_spec().len() == N
        &&& self.segments_spec().len() <= MAX_SEGMENTS
    }

    /// Creates an instance with a single segment covering the whole strip,
    /// using the `Static` effect at full brightness.
    pub fn new(brightness: u8) -> (fx: Self)
        ensures
            fx.pixels_spec() == solid(N as nat, rgb_of(0, 0, 0)),
            fx.segments_spec() == seq![
                Segment::new_spec(0, if N == 0 { 0 } else { (N - 1) as usize }, Effect::Static),
            ],
            fx.brightness_spec() == brightness,
    {
        let mut pixels: Vec<RGB8> = Vec::new();
        let mut i: usize = 0;
        while i < N
            invariant
                i <= N,
                pixels@.len() == i,
                forall|k: int| 0 <= k < i ==> pixels@[k] == rgb_of(0, 0, 0),
            decreases N - i,
        {
            pixels.push(black());
            i = i + 1;
        }
        let mut segments = segments_new();
        let last = if N == 0 {
            0
        } else {
            N - 1
        };
        let first = Segment::new(0, last, Effect::Static);
        let _ = segments_push(&mut segments, first);
        let fx = Self { pixels, segments, brightness };
        proof {
            crate::effect::lemma_start_accepted(Effect::Static, N as nat);
            assert(fx.segments_spec()[0] == first);
        }
        assert(fx.pixels_spec() =~= solid(N as nat, rgb_of(0, 0, 0)));
        fx
    }

    /// Whether `segment` can be added to a strip of `N` LEDs: its run lies on
    /// the strip and its effect can step from its state there.
    pub fn fits(segment: &Segment) -> (ok: bool)
        ensures
            ok == segment_fits(*segment, N as nat),
    {
        if segment.stop == usize::MAX {
            return false;
        }
        let end = if segment.stop + 1 < N {
            segment.stop + 1
        } else {
            N
        };
        if segment.start > end {
            return false;
        }
        let params = segment.params();
        let len = end - segment.start;
        let group = params.group_len();
        proof {
            if len > 0 {
                lemma_view_bounds(len as nat, group as nat);
            }
            lemma_view_len_split(len as nat, group as nat);
        }
        let drawn = len / group + if len % group != 0 {
            1
        } else {
            0
        };
        len == 0 || (segment.effect.can_step_from(segment.state, drawn) && segment.effect.can_draw_on(
            drawn,
            &params,
        ))
    }

    /// Drive the effect engine. Pass the current time in milliseconds.
    ///
    /// Returns `true` when at least one segment was re-rendered and the strip
    /// should be written to hardware via [`iter`](Self::iter).
    pub fn service(&mut self, now_ms: u64) -> (updated: bool)
        ensures
            final(self).pixels_spec() == serviced(
                old(self).pixels_spec(),
                old(self).segments_spec(),
                now_ms,
                0,
            ).0,
            final(self).segments_spec() == serviced(
                old(self).pixels_spec(),
                old(self).segments_spec(),
                now_ms,
                0,
            ).1,
            updated == serviced(old(self).pixels_spec(), old(self).segments_spec(), now_ms, 0).2,
            final(self).brightness_spec() == old(self).brightness_spec(),
    {
        proof {
            use_type_invariant(&*self);
        }
        let ghost goal = serviced(old(self).pixels_spec(), old(self).segments_spec(), now_ms, 0);
        let mut updated = false;
        let n = segments_len(&self.segments);
        let mut i: usize = 0;
        while i < n
            invariant
                n == self.segments_spec().len(),
                i <= n,
                self.brightness == old(self).brightness,
                serviced(self.pixels_spec(), self.segments_spec(), now_ms, i as nat).0 == goal.0,
                serviced(self.pixels_spec(), self.segments_spec(), now_ms, i as nat).1 == goal.1,
                (updated || serviced(self.pixels_spec(), self.segments_spec(), now_ms, i as nat).2)
                    == goal.2,
            decreases n - i,
        {
            proof {
                use_type_invariant(&*self);
            }
            let segment = segments_get(&self.segments, i);
            let elapsed = now_ms.wrapping_sub(segment.last_update);
            // A segment whose run or state the strip cannot render is skipped.
            if elapsed >= segment.config.speed as u64 && Self::fits(&segment) {
                let state = self.render_segment(&segment);
                let next = Segment { state, last_update: now_ms, ..segment };
                segments_set(&mut self.segments, i, next);
                updated = true;
            }
            i = i + 1;
        }
        updated
    }

    /// Steps `segment` once over its run of the strip and returns the state
    /// it steps to.
    fn render_segment(&mut self, segment: &Segment) -> (state: EffectState)
        requires
            segment_fits(*segment, N as nat),
        ensures
            final(self).pixels_spec() == rendered(old(self).pixels_spec(), *segment).0,
            state == rendered(old(self).pixels_spec(), *segment).1,
            final(self).segments_spec() == old(self).segments_spec(),
            final(self).brightness_spec() == old(self).brightness_spec(),
            segment_end(*segment, N as nat) > segment.start ==> segment.effect.accepts(
                state,
                segment_view_len(*segment, N as nat),
            ),
    {
        proof {
            use_type_invariant(&*self);
        }
        let start = segment.start;
        let end = if segment.stop + 1 < N {
            segment.stop + 1
        } else {
            N
        };
        let mut run: Vec<RGB8> = Vec::new();
        let mut k: usize = start;
        while k < end
            invariant
                self.pixels@.len() == N,
                self.segments_spec() == old(self).segments_spec(),
                self.brightness == old(self).brightness,
                self.pixels@ == old(self).pixels@,
                start <= k <= end,
                end <= N,
                run@ == self.pixels@.subrange(start as int, k as int),
            decreases end - k,
        {
            run.push(self.pixels[k]);
            k = k + 1;
        }
        let ghost before = self.pixels@;
        let mut state = segment.state;
        let params = segment.params();
        segment.effect.step(&mut run, &mut state, &params);
        let mut j: usize = start;
        while j < end
            invariant
                self.pixels@.len() == N,
                self.segments_spec() == old(self).segments_spec(),
                self.brightness == old(self).brightness,
                    start <= j <= end,
                end <= N,
                run@.len() == end - start,
                self.segments_spec().len() <= MAX_SEGMENTS,
                forall|q: int| 0 <= q < start ==> self.pixels@[q] == before[q],
                forall|q: int| j <= q < N ==> self.pixels@[q] == before[q],
                forall|q: int| start <= q < j ==> self.pixels@[q] == run@[q - start],
            decreases end - j,
        {
            let c = run[j - start];
            self.pixels[j] = c;
            j = j + 1;
        }
        assert(self.pixels@ =~= rendered(before, *segment).0);
        state
    }

    /// The pixels scaled by the brightness, ready for a driver.
    pub open spec fn output_spec(&self) -> Seq<RGB8> {
        Seq::new(self.pixels_spec().len(), |i: int| brightened(self.pixels_spec()[i], self.brightness_spec()))
    }

    /// Returns the brightness-scaled pixels ready for a driver.
    pub fn iter(&self) -> (out: Vec<RGB8>)
        ensures
            out@ == self.output_spec(),
            out@.len() == N,
    {
        proof {
            use_type_invariant(&*self);
        }
        let brightness = self.brightness;
        let len = self.pixels.len();
        let mut out: Vec<RGB8> = Vec::new();
        let mut i: usize = 0;
        while i < len
            invariant
                len == self.pixels@.len(),
                brightness == self.brightness,
                i <= len,
                out@.len() == i,
                forall|k: int| 0 <= k < i ==> out@[k] == brightened(self.pixels@[k], brightness),
            decreases len - i,
        {
            let c = self.pixels[i];
            out.push(
                RGB8 { r: scale_by(c.r, brightness), g: scale_by(c.g, brightness), b: scale_by(c.b, brightness) },
            );
            i = i + 1;
        }
        assert(out@ =~= self.output_spec());
        out
    }

    pub fn set_brightness(&mut self, brightness: u8)
        ensures
            final(self).brightness_spec() == brightness,
            final(self).pixels_spec() == old(self).pixels_spec(),
            final(self).segments_spec() == old(self).segments_spec(),
    {
        proof {
            use_type_invariant(&*self);
        }
        self.brightness = brightness;
    }

    /// The segments after `update` replaces segment `segment_idx`, if there is
    /// one.
    pub open spec fn updated_segments(
        segments: Seq<Segment>,
        segment_idx: usize,
        segment: Segment,
    ) -> Seq<Segment> {
        if segment_idx < segments.len() {
            segments.update(segment_idx as int, segment)
        } else {
            segments
        }
    }

    /// Set the effect for a segment, resetting its animation state.
    pub fn set_effect(&mut self, segment_idx: usize, effect: Effect)
        ensures
            final(self).segments_spec() == Self::updated_segments(
                old(self).segments_spec(),
                segment_idx,
                Segment { effect, state: EffectState::start(), ..old(self).segments_spec()[segment_idx as int] },
            ),
            final(self).pixels_spec() == old(self).pixels_spec(),
            final(self).brightness_spec() == old(self).brightness_spec(),
    {
        proof {
            use_type_invariant(&*self);
        }
        let n = segments_len(&self.segments);
        if segment_idx < n {
            let segment = segments_get(&self.segments, segment_idx);
            let next = Segment { effect, state: EffectState::default(), ..segment };
            segments_set(&mut self.segments, segment_idx, next);
        }
    }

    /// Set the primary color for a segment.
    pub fn set_color(&mut self, segment_idx: usize, color: RGB8)
        ensures
            final(self).segments_spec() == Self::updated_segments(
                old(self).segments_spec(),
                segment_idx,
                Segment {
                    config: EffectConfig {
                        colors: [
                            color,
                            old(self).segments_spec()[segment_idx as int].config.colors[1],
                            old(self).segments_spec()[segment_idx as int].config.colors[2],
                        ],
                        ..old(self).segments_spec()[segment_idx as int].config
                    },
                    ..old(self).segments_spec()[segment_idx as int]
                },
            ),
            final(self).pixels_spec() == old(self).pixels_spec(),
            final(self).brightness_spec() == old(self).brightness_spec(),
    {
        proof {
            use_type_invariant(&*self);
        }
        let n = segments_len(&self.segments);
        if segment_idx < n {
            let segment = segments_get(&self.segments, segment_idx);
            let config = EffectConfig {
                colors: [color, segment.config.colors[1], segment.config.colors[2]],
                ..segment.config
            };
            let next = Segment { config, ..segment };
            segments_set(&mut self.segments, segment_idx, next);
        }
    }

    /// Set the effect speed (ms between steps) for a segment.
    pub fn set_speed(&mut self, segment_idx: usize, speed: u16)
        ensures
            final(self).segments_spec() == Self::updated_segments(
                old(self).segments_spec(),
                segment_idx,
                Segment {
                    config: EffectConfig { speed, ..old(self).segments_spec()[segment_idx as int].config },
                    ..old(self).segments_spec()[segment_idx as int]
                },
            ),
            final(self).pixels_spec() == old(self).pixels_spec(),
            final(self).brightness_spec() == old(self).brightness_spec(),
    {
        proof {
            use_type_invariant(&*self);
        }
        let n = segments_len(&self.segments);
        if segment_idx < n {
            let segment = segments_get(&self.segments, segment_idx);
            let next = Segment { config: EffectConfig { speed, ..segment.config }, ..segment };
            segments_set(&mut self.segments, segment_idx, next);
        }
    }

    /// Set the palette for a segment; `None` returns it to its primary
    /// colour.
    pub fn set_palette(&mut self, segment_idx: usize, palette: Option<Palette16>)
        ensures
            final(self).segments_spec() == Self::updated_segments(
                old(self).segments_spec(),
                segment_idx,
                Segment { palette, ..old(self).segments_spec()[segment_idx as int] },
            ),
            final(self).pixels_spec() == old(self).pixels_spec(),
            final(self).brightness_spec() == old(self).brightness_spec(),
    {
        proof {
            use_type_invariant(&*self);
        }
        let n = segments_len(&self.segments);
        if segment_idx < n {
            let segment = segments_get(&self.segments, segment_idx);
            let next = Segment { palette, ..segment };
            segments_set(&mut self.segments, segment_idx, next);
        }
    }

    /// The segments after `set_segment` puts `segment` at `segment_idx`.
    pub open spec fn placed_segments(
        segments: Seq<Segment>,
        segment_idx: usize,
        segment: Segment,
    ) -> Seq<Segment> {
        if segment_idx < segments.len() {
            segments.update(segment_idx as int, segment)
        } else if segment_idx == segments.len() && segments.len() < MAX_SEGMENTS {
            segments.push(segment)
        } else {
            segments
        }
    }

    /// Put `segment` at `segment_idx`: it replaces the segment there, or,
    /// one past the last segment and below the pool's capacity, is added.
    /// Any other index leaves the segments as they are.
    pub fn set_segment(&mut self, segment_idx: usize, segment: Segment)
        ensures
            final(self).segments_spec() == Self::placed_segments(
                old(self).segments_spec(),
                segment_idx,
                segment,
            ),
            final(self).pixels_spec() == old(self).pixels_spec(),
            final(self).brightness_spec() == old(self).brightness_spec(),
    {
        proof {
            use_type_invariant(&*self);
        }
        let n = segments_len(&self.segments);
        if segment_idx < n {
            segments_set(&mut self.segments, segment_idx, segment);
        } else if segment_idx == n && n < MAX_SEGMENTS {
            let _ = segments_push(&mut self.segments, segment);
        }
    }

    /// Add a segment. Returns `Err(segment)` if the segment pool is full.
    pub fn add_segment(&mut self, segment: Segment) -> (r: Result<(), Segment>)
        ensures
            old(self).segments_spec().len() < MAX_SEGMENTS ==> r is Ok && final(self).segments_spec()
                == old(self).segments_spec().push(segment),
            old(self).segments_spec().len() >= MAX_SEGMENTS ==> r == Err::<(), Segment>(segment)
                && final(self).segments_spec() == old(self).segments_spec(),
            final(self).pixels_spec() == old(self).pixels_spec(),
            final(self).brightness_spec() == old(self).brightness_spec(),
    {
        proof {
            use_type_invariant(&*self);
        }
        let rejected = segments_push(&mut self.segments, segment);
        let r = match rejected {
            None => Ok(()),
            Some(s) => Err(s),
        };
        r
    }

    pub fn segment_count(&self) -> (n: usize)
        ensures
            n == self.segments_spec().len(),
    {
        segments_len(&self.segments)
    }
}

} // verus!
