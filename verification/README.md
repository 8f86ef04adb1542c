# mi

The verified core of MI (Miracle Intelligence), a security-intelligence
command-line tool: the scope guard that decides whether a target may be
contacted, the domain models, the decoding of stored rows, and the Shodan
provider's request and response handling.

- `src/` is the library, checked by Verus:
  - `models.rs`: assets, observations, findings, scope entries, timestamps,
    and the classifying enums with their stored text forms;
  - `net.rs`: IP addresses and CIDR networks, private-address detection,
    scope-pattern categories;
  - `scope.rs`: pattern matching, the authorization decision, new entries,
    and the laws the decision obeys;
  - `storage.rs`: decoding of database rows;
  - `provider.rs`: provider results and errors, Shodan URLs and status
    handling;
  - `settings.rs`: configuration, secret masking, log filter choice;
  - `text.rs`: character-level helpers;
  - `bindings.rs`: the trusted calls into the standard library and the
    outside crates (uuid, chrono, ipnetwork, reqwest, serde_json, sqlx).
- `app/` is the `mi` program: argument parsing, configuration files, the
  SQLite database and the HTTP calls.
- `tests/` exercises the library on concrete values.
