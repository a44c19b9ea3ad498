# integrate_dht_ops

States of a cell's database before and after DHT operations are integrated, with proofs that what
is set can be found and that what integration brings about shows.

- `address`, `content`, `header`, `op`: the content of the DHT and its addresses.
- `hasher`: the hash functions, which the caller supplies, and the address functions they compute.
- `env`: the tables of operations, headers and entries, and the writes to them.
- `query`: the questions asked of the tables.
- `db`: states of the database; `Db::set` brings them about and `Db::check` looks for them.
- `test_data`, `scenarios`: content that refers to each other, and the scenarios made of it.
- `play`: playing a scenario, whatever the workflow that integrates does.
- `host_calls`: what host functions are called with, and what is made of their answers.
- `laws`: what holds of setting, integrating and checking taken together.

`app/` plays the scenarios on a cell of a running node: the node supplies hash functions, arbitrary
values, the database, the answers to questions for links, and the workflow that integrates.
