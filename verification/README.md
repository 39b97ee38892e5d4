# modelpipe_ffi

The connect half of a [modelpipe](https://crates.io/crates/modelpipe)
client, as a library a Swift app links: dial a machine that is serving a
model, pair with it, and watch the pipe.

`src/` is the verified library. It holds what crosses the boundary and the
rules that decide it: the errors a dial and a pairing cross as, the sentence
each shows a person and whether a retry is worth anything; the status, close
reason and counters mirrored from modelpipe; the name of the key file a
device keeps for each far machine (the first eight bytes of SHA-256 over the
canonical ticket, in hex, then `.key`); reading a pairing string without
pairing; and the one retry a dial makes when modelpipe refuses its key file.
The modelpipe, sha2, tokio-util and std calls it makes stand in
`src/upstream.rs`, each with what is relied on of it.

`app/` is the FFI surface: the UniFFI derives, the tokio runtime the library
owns, and the calls that wait (a dial, a pairing, a status change, a
shutdown), which hand every answer to the library to cross.

`tests/` runs the library against modelpipe's own ticket vectors.
