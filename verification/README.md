# pq-chat-backend

A relay for end-to-end encrypted group chat with post-quantum cryptography
(Kyber768 keys, Dilithium3 signatures). The relay never sees a plaintext or a group
key: it keeps public keys, channel membership and encrypted messages, and forwards
frames between members.

* `src/`: the library, verified with Verus. `rules.rs` says what every request does,
  `dispatch.rs` does it, and `laws.rs` holds what follows across requests.
  `relay_rules.rs`, `relay.rs` and `relay_laws.rs` are the same for a minimal
  development relay without signature checks. `outside.rs` collects everything that
  is believed of outside crates without proof.
* `tests/`: tests of the library with real keys and signatures.
* `app/`: the program around it, JSON over WebSockets. Requests are handled one at a
  time, under one lock.

A sender signs the sixteen bytes of the channel id, the epoch as eight bytes with the
least significant first, the ciphertext and the nonce, in this order.
