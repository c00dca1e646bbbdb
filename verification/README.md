# idp_core

The application layer of a multi-tenant identity provider, verified with Verus: password, second
factor and passkey sign-on, the portal with its sign-on tickets, step-up confirmation, password
policies and resets, signing keys, tokens, logout and revocation, SAML sign-on, and the management
of tenants, members, resources, permissions and settings.

## How a use case is written

No use case calls a store, a mail server or another service. It is a function from its inputs and
from what is known so far (its *progress*) to what comes next (its *step*): a call to make, or the
outcome. The caller makes the call, puts the answer into the progress and asks again. The contract
of such a function says, for every progress, which step comes next, and with which arguments; the
public proof functions at the end of each module state what holds over all of them.

## Layout

- `src/` is the verified library. `model` holds the types that several modules share, `text` and
  `time` the handling of strings and instants, `crypto` and `webauthn` everything that is left to
  other crates; each of the other modules is one use case or a group of them.
- `app/` runs the use cases against a backend, and holds what needs `async`.
- `tests/` runs the library on concrete values.
