# de_idle

An idle game in the browser: chop wood, sell it for gold, hire miners and
lumberjacks, and shape the plot of one quantity against another to complete
goals. Furnaces, factories, banks, recruiters and monsters take part in every
update (a game state can hold them), but the game's rules give the player no
action that builds, demolishes, hires or fires them, and no reset: their rows on
the dashboard only show the amounts.

- `src/` is the verified library (Verus): resources counted in milli units with
  saturating arithmetic, what each worker and building produces and consumes per
  update, the game state and its update, sliding windows, the screen layout, the
  axis names, the plot's bounded history, and the order in which goals unlock
  messages and resources. `src/game_state/laws.rs` holds the proved laws of the
  game's arithmetic.
- `app/` is the browser program around it: the page, the timers, the channels
  between actors, the chart, and the goal checkers, which fit curves to `f64`
  points.
- `tests/` runs the game's scenarios (linear, quadratic and exponential growth,
  the circle of life) and the library's edge cases.
