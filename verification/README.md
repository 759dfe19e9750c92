# gossip_chat

The decision logic of a small peer-to-peer terminal chat, verified with Verus.

- `src/` — the verified library:
  - `config` — the user's name and the optional address of a peer to join;
  - `setup` — the start-up prompt as a state machine (name, then new or joined network);
  - `message` — chat messages, the notices shown to the user, composing and echoing messages,
    and the one-time announcement of listening addresses;
  - `chat_log` — the scrolling rows of the chat window;
  - `message_id` — content-addressed gossip message identifiers (decimal hash of the payload);
  - `console` — what a line typed on the console asks for;
  - `peers` — how the set of peers to flood to follows local discovery;
  - `dial` — whether and where to dial at start-up.
- `app/` — the program: the terminal user interface (cursive), the libp2p swarm,
  the JSON wire format (serde) and the event loops, all driven by the library.
- `tests/` — tests of the library on concrete values.
