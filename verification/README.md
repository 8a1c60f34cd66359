# saturn_bridge

The protocol and safety core of the Saturn bridge, written in Verus: the TCI
text and binary protocol spoken to remote browser clients, the client
registry with operator and viewer roles and split control/media sessions,
the per-client outbound scheduler, the command mailbox of the radio loop, the
transmit state machines, and the XDMA register, FIFO and DMA-batch rules of
the Saturn board.

## Layout

- `src/` — the verified library. Every function carries a contract that
  Verus proves.
  - `protocol`, `commands`, `parser`, `incoming`, `text`: TCI messages,
    command parsing and what each command does to the client registry.
  - `registry`, `session`: connected clients, roles, split-session pairing.
  - `outbound`, `frontend`, `publish`, `snapshot`: queues per client,
    broadcasting, the connect snapshot and the published radio state.
  - `mailbox`: commands handed to the radio loop, safety first.
  - `settings`: what each radio-control command does to the desired radio
    settings, with the backend's limits, and what the backend does next.
  - `codec`: microphone codec negotiation and payload checks.
  - `backend`, `tx_control`, `tx_audio`: transmit request, PTT state machine,
    microphone audio ingress.
  - `xdma`, `duc`, `audio`: register values that keep RF off, FIFO readings,
    DUC refill decisions and probe gates.
  - `laws`: properties that relate several operations, as proof functions.
- `tests/` — tests run against the compiled library.
- `app/` — the runtime shell, a library of parts without a `main`: sockets
  and threads, device files, libopus, the radio loop's command pass, and the
  floating-point arithmetic (sample interpolation and channel mixing, meter
  and SWR formulas, limits of real-valued settings). The receive DSP, the
  transmit worker and the report writers are not part of it: they rest on
  the WDSP library and on the radio model, which this project does not
  contain.
