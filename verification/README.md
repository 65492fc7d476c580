# telemetry_adapters

Decoders and protocol logic for racing-game telemetry (Codemasters Mode 1 and
custom UDP, F1 23/24/25, ACC broadcasting, AC Rally probing, Assetto Corsa,
BeamNG OutGauge, Dakar Desert Rally, ETS2/ATS, Forza, Gran Turismo 7/Sport,
GRID Legends, Automobilista), verified with Verus.

- `src/` is the verified library: every packet parser states exactly which
  inputs it rejects and what each field of an accepted packet is, as spec
  functions over the byte sequence; packet builders state the bytes they
  produce, and proof functions show that parsing a built packet gives back
  what it was built from. The GT7 Salsa20 keystream is specified word by word
  and the in-place decryption is proved against it.
- Single-precision values are carried as their bit patterns, so the library
  never computes with floats.
- `app/` is the runtime around it: sockets, shared memory, process
  enumeration, environment settings, the asynchronous adapter interface, and
  the floating-point conversion of decoded fields into a normalized record.
- `tests/` exercises the library on concrete packets.
