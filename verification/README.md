# lnradar

Probes the lightning network with payments that nobody can claim. A test payment goes to a
node that does not exist, behind a node that does; where and how it fails tells which
channels can pass an amount on and whether the node was reached.

- `src/` is the library, verified with Verus: the payments and their invoices, the routes,
  what is asked of the node step by step, what is learned from an attempt, and which
  channels are switched off and on again.
- `app/` is the plugin around it: commands, clock, sockets, and the node's own types.
- `tests/` runs the library on concrete values.

What the library believes of outside crates stands in functions marked
`#[verifier::external_body]`, each with a comment that says what is believed.
