# flummis

The rules of a small open-world city game, verified with Verus.

* `src/` is the verified library: render quality presets and how they are
  fitted to a GPU, and when the post stack is attached (`quality`, `render`,
  `volumetrics`, `post`), reproducible random
  streams (`rng`), crimes, the police response, a unit's pursuit state
  machine and weapon triggers (`crime`, `police`, `weapons`), missions and the campaign (`mission`), game states and
  the pause menu (`menu`), input actions (`settings`), the command line of
  capture runs (`capture`), the WAV format (`audition`) and the asset root
  (`assets`). Laws of the library are public `lemma_*` proof functions.
* `app/` is ordinary Rust around it: reading the environment, the command line
  and the disk, the serialised forms of settings and saves, key codes, and the
  parts of the rules that are computed in floating point (health, heat,
  objective conditions, voices).
* `tests/` runs the library on concrete values.
