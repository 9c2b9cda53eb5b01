# xrpld_app

The rules of an XRP Ledger node, as executable Rust whose behaviour is stated in contracts and
proved by Verus.

- `submit` applies one transaction, and the transactions of a batch: checks, sequence and fee,
  handler, invariants, cleanup.
- `queue` judges transactions before they are applied: preflight, preclaim, base fees,
  consequences, and paying for queued transactions.
- `offer` and `lending` are the handlers of offers and of payments on loans.
- `mpt` holds the invariants of multi-purpose tokens.
- `build`, `open_ledger`, `consensus` and `publication` build ledgers, rebase the open one, accept
  validated ones and publish them.
- `network` and `root` are what a node tells others, and the state that holds it together.

A decision that depends on the ledger, the network or a calculation elsewhere takes the answers as
plain values. Where it asks for several things in turn, it returns them as a list of calls, and
its contract fixes the list: what is asked for, in which order, and with which values as far as
the calls hold them. `app/` carries out two of them: the steps of building a ledger, and the events
of a publication.

The one part that is taken on trust is reading a member of a JSON document with `serde_json`, in
`network/lists.rs`.
