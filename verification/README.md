# weathr

The logic of an ASCII weather screensaver for the terminal, verified with
Verus: a house in a yard under the current weather, a cat living its own
life, airplanes (real ones, with captions), the ISS, Starlink trains and the
night sky's guests, seasonal easter eggs, and a HUD with the weather and
the forecast.

## Layout

- `src/` — the verified library.
  - `text.rs`: trimming, prefixes, decimal notation, line splitting.
  - `canvas.rs`: character cells and clipped text drawing; every drawing of
    the scene is a list of cells.
  - `app_state.rs`, `hud.rs`: glyphs, names and colours of the conditions,
    the HUD state and the HUD block composed from a weather report.
  - `ai_cat.rs`: the prompt and the reading of the model's answer.
  - `flights.rs`: choosing an OpenSky aircraft, its caption and the lookup
    of its details.
  - `starlink.rs`: trains among the NORAD numbers overhead.
  - `clock.rs`: the system clocks.
  - `animation/`: the timed states, random choices and drawn cells of the
    cat, the night sky, the holidays, the house, the snow, the rainbow,
    the airplanes and the ISS.
- `tests/` — tests of the library.
- `app/` — the front end around the library: network and file access,
  background watchers, floating-point motion on screen, and printing the
  cells with crossterm.
