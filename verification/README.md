# eth_p2p_crawler

A crawler of the Ethereum peer-to-peer network. It connects to peers, asks them for the transactions
they announce, and shows both in a terminal.

`src/` is the library, in Verus: every function states what it returns or changes, and Verus proves
it.

| Module | What it holds |
| --- | --- |
| `primitives`, `text` | Byte strings, 256-bit integers, and how they are written |
| `transaction` | Signed transactions of five kinds, their hashes and signers |
| `analysis` | What is shown of a transaction |
| `types` | The messages to the user interface |
| `network` | The connected peers, and how peer events change them |
| `mempool` | How announcements, requests and deliveries of transactions are answered |
| `ui`, `ui_laws` | The state of the user interface, and the laws it obeys |
| `frame` | The text of a frame |
| `identity` | The peer id that belongs to a node key |
| `api` | What the web interface answers |

Functions marked `#[verifier::external_body]` call other crates (`alloy`, `dashmap`, `num_format`,
`secp256k1`) or std. Their contracts are believed, and their comments say what is claimed of the
call. Functions named `law_..` state what holds across several functions.

`app/` is the program around the library: the network stack, the terminal, the database and the web
server. `tests/` runs the library on known values.
