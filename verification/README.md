# prismer

A binding to [prism](https://github.com/ethindp/prism), the platform-agnostic
reader interface for speech, braille and screen reader output, split in two:

- `src/` is the verified library. It holds every decision the binding makes
  on its side of prism's C interface, each with a contract proved by Verus:
  - `error`: what prism's status codes mean (`check`), the code of each error
    (`Error::to_raw`, `to_code`) and their descriptions (`Error::message`),
    with the round trips between codes and errors proved.
  - `features`: the bitset of backend capabilities and the laws of `contains`.
  - `id`: the identifiers of prism's built-in backends.
  - `log`: log levels and their codes.
  - `context`: the builder of a context's configuration.
  - `registry`: which vtable members a custom backend gets for the features
    it declares (proved consistent with the declaration), its priority, and
    the replies it sends back to prism.
  - `text`: NUL-terminated UTF-8 going into and coming out of C.
  - `voices`: the enumeration of a backend's voices, as a state machine
    driven by the answers to its queries.
  - `raw`: the values of prism's C header.
- `app/` makes the calls into prism's C library: the context, backend and
  registry handles, the logger, and the C entry points of custom backends.
- `tests/` exercise the library on concrete values.
