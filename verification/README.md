# xelis

A verified library with the logic of the XELIS wallet cipher, of the contract
helpers and of the XELIS miner, proved with Verus.

- `src/crypto.rs`: XChaCha20Poly1305 and BLAKE3, the trusted boundary.
- `src/cipher.rs`: encryption of stored values (salt, nonce, ciphertext) and
  key hashing; decryption undoes encryption.
- `src/contract/`: the contract provider interface and the wallet's
  decryption of stored values.
- `src/encoding.rs`: hexadecimal and decimal text.
- `src/miner/`: the miner's settings, block work, messages, the decisions of
  the communication task and of the mining threads, and the texts it shows.
- `app/`: the miner program around the library (settings files, WebSocket,
  threads, HTTP statistics, prompt).
- `tests/`: tests of the library.
