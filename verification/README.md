# breakout

A small brick-breaking game built on Bevy and Avian.

- `src/` is the verified library (Verus): the integer and boolean rules of the
  game — which block a ball's collision removes, what catching a power-up
  does, how the arrow keys steer the platform, which rows a fresh board gets,
  and the index buffer of the octagon mesh — each with its contract and laws.
- `app/` is the Bevy program: systems, bundles, rendering and all
  floating-point geometry, calling the library for those rules.
- `tests/` runs the library on concrete values.
