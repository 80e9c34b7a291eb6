# asteroids

The rules of an Asteroids game for the Godot engine, verified with Verus.

- `src/` is the verified library: the score and high-score rules of a round
  (`stage`), what a hit does to a meteor (`meteor`), the saved high score
  and when it is written back (`globals`), and the "3 days, 2 hours ago"
  descriptions of elapsed time (`sice_string`, `since_string`, built on
  `text` and `units`). `clock` holds what is taken from chrono.
- `app/` is the Godot extension around it: the engine classes, scenes and
  signals, the save file and its JSON form, the clock, random rolls, and the
  floating-point motion of ships, bullets, meteors, stars and the compass.
- `tests/` runs the library on concrete values.
