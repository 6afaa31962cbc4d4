# veracruz_nitro

Verified decision logic of the AWS Nitro attestation service and of the Nitro
flavour of the Veracruz server.

- `src/attestation.rs`: the challenges issued per device, the check of an
  authenticated token's nonce, of the enclave measurement and the hashing of
  the enclave's public key, with the laws that tie them together.
- `src/encoding.rs`: base64 framing of requests and responses.
- `src/runtime_manager.rs`: the messages exchanged with the Runtime Manager.
- `src/startup.rs`: bringing up the Runtime Manager enclave, as a state
  machine from events to actions.
- `src/tls.rs`: opening TLS sessions and collecting TLS data from the enclave.
- `app/`: the I/O around the library (request parsing, token authentication,
  the device database, the enclave and the proxy attestation server).
