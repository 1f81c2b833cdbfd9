# pico

A verified library for a Raspberry Pi Pico I/O controller and the host tools that command
and observe it. The library holds the decisions of the firmware's tasks and of the tools,
each stated as a contract over a mathematical model and proved with Verus; the parts that
touch hardware, the network or the terminal stay outside it.

## Layout

- `src/messages.rs` — the messages between pico and host; `Label` keeps a
  `heapless::String<16>`.
- `src/bang_bang.rs` — the two-point controller with hysteresis, as a state machine from
  event to next state and actions.
- `src/sequencer.rs` — timed sequences with guards and abort steps: planning a step and
  applying its transition.
- `src/water_tank.rs` — the water tank application: its setup and its fill sequence.
- `src/display.rs` — the display's stack of pages of lines (kept in `heapless::Vec`s) and
  what a redraw draws.
- `src/timer.rs` — period timing: jitter, due times, execution time.
- `src/measurements.rs` — the last value of each pin and how reports update it.
- `src/bar_graph.rs`, `src/analog_out.rs`, `src/network.rs` — bar graph levels, PWM settings
  and duty cycles, network settings and the DHCP offer.
- `src/dispatcher.rs`, `src/inbound.rs`, `src/outbound.rs`, `src/watchdog.rs` — where
  commands go and what the network and watchdog tasks do.
- `src/tools/` — the command line instructions, their matching and arguments, and the
  tools' configuration and log words.
- `tests/` — tests of the library on concrete values.
- `app/` — the host tools `instruct` and `observe`: arguments, UDP sockets, the postcard
  encoding of the messages, and printing; and, in `app/firmware/`, the firmware's embassy
  tasks, which run the library's state machines on the board's pins, ADC, PWM, display, USB
  network card and watchdog.
