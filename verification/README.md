# yuki_rs

Hands out small integer ids (lease slots and machine ids, 0 to 1023) to
processes that share a Firestore database, and keeps them alive with
periodic renewals.

- `src/` is the verified library: the time model (`time`), the slot scan that
  finds a free slot (`datastore::probe`, `datastore::scan`), the Firestore
  specific decisions (`datastore::store`), and the rules that keep a lease
  (`lease`) and a machine id (`machine_id`) alive. Each of the scan and the
  keepers is a state machine: the caller performs the action it returns and
  hands back what came of it.
- `app/` holds the asynchronous drivers that talk to Firestore, run the
  timers and feed the state machines.
- `tests/` exercises the library on concrete values.
