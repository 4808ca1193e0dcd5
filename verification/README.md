# plato_dashboard

Fleet dashboard rendering for the PLATO nervous system, as a verified library.

- `src/` — the library, verified with Verus:
  - `text` — decimal numbers, repeated characters, padding and alignment;
  - `render` — ANSI codes, colors, box drawing, `pad`/`center`/`draw_box`;
  - `room_panel` — sensors, alarm levels, a room's worst alarm, the room panel;
  - `alarm_panel` — active alarms, acknowledgment, resolution into a bounded history;
  - `fleet_panel` — per-room and fleet health, fleet statistics, the fleet panel;
  - `dashboard` — room selection and navigation, scrolling, the full screen;
  - `summary` — severities, alerts, room summaries, configuration validation,
    the fleet summary and its terminal table and HTML page.
- `app/` — the demo program and what stays outside the library: floating-point
  work (averages, sparklines, formatting readings) and the serde/JSON copies
  of the summary types.
- `tests/` — behaviour tests of the library.

Measured quantities (sensor readings, autonomy percentages, health scores) are
carried through the library as IEEE-754 binary64 bit patterns; where a panel
prints one, it takes the display text as an argument.
