# smart_leds_fx

An LED effect engine — 91 animated effects, up to
ten independently animated segments per strip, brightness applied on the way
out — written in Verus, with every frame an effect draws stated as a
specification and proved.

## Layout

- `src/pixel.rs`, `src/utils.rs`: the colour type, colour arithmetic, the
  clock helpers and the random source the effects share.
- `src/params.rs`, `src/segment.rs`: what an effect reads on each step, and the
  segments a strip animates.
- `src/effects/`: the effects, one module per family. Each effect's frame is a
  spec function (`*_frame`) and the effect's contract is that it draws exactly
  that frame and steps to exactly that state.
- `src/effect.rs`: the `Effect` enum, its names, settings and palette use,
  and `step`, which draws an effect on a grouped, possibly reversed strip —
  into `RGB8` pixels, or with `step_pixels` into any type implementing
  `Pixel` (`RGB8` and `color8`'s `Crgb` among them).
- `src/lib.rs`: `Ws2812Fx` (also named `StripFx`), the strip engine: its
  pixels, its segments — each with its effect, colours, options and palette —
  and when each steps.
- `src/laws.rs`: properties that span several functions, as proof functions.
- `app/`: glue to the `smart-leds` ecosystem — conversions to driver colours
  and `color8` palettes, and writing a serviced strip to a `SmartLedsWrite`
  driver.

The outside crates the engine computes with (`lib8tion`'s sine and triangle
waves, `color8`'s palette sampling, `fastrand`'s generator and `heapless`'s
vector) are called through small trusted wrappers whose contracts state what
each call returns.
