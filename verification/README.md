# InfluxDB backend for zenoh

A zenoh volume that keeps the values of its storages in the databases of an InfluxDB v2 server.

- `src/` is the library. It holds every decision: how configurations are read, which database a
  storage uses and whether it is made, which points and queries are sent, and what the answers of the
  server mean. It is written in Verus, and each function is proved to meet its contract.
- `app/` is the plugin around it: it implements the traits of zenoh, sends what the library asks for,
  and hands the answers back.
- `tests/` runs the library on concrete values.

The library calls the outside crates for what they compute: JSON values (`serde_json`), timestamps
and time ranges (`zenoh`), points (`influxdb2`), base64 (`base64`), random names (`uuid`) and the clock
and the calendar (`chrono`). What is taken for granted of them stands in the contracts of the
functions marked `#[verifier::external_body]`, each with a comment that says so in words.

A configuration of a storage may hold:

| property     | meaning                                                                |
|--------------|------------------------------------------------------------------------|
| `db`         | the database; a name is made up where it is missing                    |
| `create_db`  | whether a given database is made where the server does not have it     |
| `on_closure` | `do_nothing` (default), `drop_db` or `drop_series`                     |
| `org_id`     | the organisation, here or under `private`                              |
| `token`      | the token, here or under `private`                                     |

`Cargo.toml` pins `url`, which only other dependencies use, to the last version that needs few crates
of its own.
