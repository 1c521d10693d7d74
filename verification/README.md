# rush

Home automation service: controllers that set monitor and laptop brightness
over SSH from an office light sensor, light schedules for Shelly plugs and
bulbs, presence detection from network scans, and a Telegram bot that runs
commands or forwards prompts to a language model.

- `src/` — the verified library (Verus): the decisions of every controller
  (state, event, next state and action), the command language of the bot,
  the settings parser, the sensor message parser, the brightness rules and
  the shell lines and URLs that are sent.
- `app/` — the program around it: Tokio tasks, SSH, HTTP, TCP, Telegram,
  the terminal dashboard, and the loops that carry out the library's actions.
- `tests/` — tests of the library, including comparisons of the integer
  brightness rules with the floating-point formulas they stand for.
