# solana_ledger

A Ledger hardware-wallet signer for Solana, verified with Verus.

The private key never leaves the device and every signature is confirmed on its
screen. What the signer decides is in `src/`, with contracts that Verus proves;
what touches the device, a thread or a timer is in `app/`, which asks the library
for the next step and reports what came of it.

* `src/` – the verified library. Four functions are trusted rather than proved,
  each a thin call into another crate or the standard library; they carry
  `external_body` and say in their doc comments what is believed of them.
* `tests/` – runs the library, with the real crates behind the trusted calls.
* `app/` – the device thread, the channels and the async traits.

What the library promises as a whole is stated as public proof functions, next to
the code they are about: `serving.rs` for the device thread, `health.rs` and
`request.rs` for callers and timeouts, `envelope.rs` for the signed bytes,
`selection.rs` for the choice of device, and `signer.rs` for the signer.
