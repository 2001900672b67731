# fwdeck

A verified model of firewalld: what a snapshot of the firewall says, what an
operation does to it, and what that means for traffic. Pure computation, no
I/O. Every function carries a contract that Verus proves.

## What it does

- **Values** — names, ports, addresses, rich rules and priorities are checked
  once, when they are read. What is written reads back as the same value
  (`ids`, `port`, `address`, `ip`, `rich_rule`, `number`, `text`).
- **State** — zones, policies, policy sets, services and snapshots, with what
  was and what was not observed (`zone`, `policy`, `policy_set`, `service`,
  `snapshot`, `observation`, `dependency`).
- **Operations** — validation against a snapshot, wording, inverses, narrowing,
  postconditions, effects on traffic, and the plan that restores one snapshot
  from another (`operation`, `operation_effect`, `restore`,
  `direct_migration`, `proposal`, `capability`).
- **Traffic** — scenarios, their evaluation with a trace, reports bound to
  identities, and projections of operations that were not applied yet
  (`traffic_test`, `explain`, `cidr`).

## How it is specified

Each type has a mathematical model, its `deep_view`: texts are sequences of
characters, lists are sequences, maps are sequences of entries in ascending
order of their names. A function's `ensures` says which model it returns, for
every input. Properties that span functions are proof functions, next to what
they speak of or in a `laws` module:

- texts of names, addresses, sources, ports, forwards, rich rules, priorities
  and keywords read back;
- an inverse undoes an edit of a zone, of a policy's services or of a service's
  ports, and panic mode; a retargeted operation differs in its target only, and
  a redundant edit of a zone changes nothing;
- a restore plan brings every zone that both snapshots have to what is wanted,
  and is empty between identical snapshots;
- a resolution without failures is closed, sound and free of repetition;
- an evaluation allows only on complete evidence, and an unknown decision never
  passes or fails a test;
- a projection stays in the scope of its operations and is exact where every
  effect is modeled;
- a proposed rule allows one flow and nothing else.

One function of the standard library is trusted: `String::push`, in `text`.

## Layout

- `src/` is the library.
- `tests/` runs it.
- `app/` holds its edges: JSON forms, error traits, addresses of the standard
  library.
