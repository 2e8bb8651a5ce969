# deimos

The verified core of a daemon that runs game servers ("pods") as Docker containers, forwards
their ports through UPnP and hands out API tokens to clients.

- `src/` is the library, checked by Verus:
  - `token_key`: token keys and their URL-safe base64 text (through the `base64` crate);
  - `pod`: pod configuration, IDs, the known and published pod state, the enable / disable /
    pause state machines, Docker container specifications, the Docker connection choice and
    event routing;
  - `upnp`: the reference-counted table of forwarded ports and the lease protocol;
  - `auth`: approved tokens and pending requests (held in `dashmap` maps), username rules,
    issuance with random keys from the operating system (`rand`; the caller supplies the
    time), approval with the first drawn key not yet in use, and the per-call authorization
    check;
  - `api`, `container`, `logger`, `config`, `ctl`, `util`, `text`: wire numbering of pod
    states, managed-container reactions to Docker events, log line format, defaults, listing
    layout, secret-file permission check, text helpers.
- `app/` is the daemon itself: configuration files, Docker and gateway I/O, the tokio tasks
  that drive the library's state machines, the token API handlers (which read the clock), and
  the save file.
- `tests/` exercises the library on concrete values.
