# stake_pool_cli

The decisions behind a command line client for stake pools, written and proved in Verus.

A command of the client reads accounts from a cluster, decides what to do, and sends
transactions. `src/` is the library that decides: which accounts a command works on, when
it refuses and with which words, which instructions its transactions hold, who signs them
and how much their payer must own. `app/` is the program around it: the command line,
reading from the cluster, keys, signing, sending and printing.

* `address`, `instruction`: addresses, lists of signers, instructions and planned
  transactions.
* `transaction`: compute budget, message, required balance, delivery.
* `ranking`, `selection`, `withdraw`: which stake accounts a withdrawal draws on, and the
  withdrawals of stake and SOL.
* `deposit`, `token_account`: deposits of stake and SOL.
* `create`, `fees`: creating a pool.
* `update`, `list`, `validators`, `manage`: the other commands.
* `options`, `config`, `error`, `text`, `state`: options, settings, errors, texts and what
  is read of a pool.
* `programs`: what the client crates of the on-chain programs build and compute. These, and
  a few readers and writers of texts in `text`, are the only functions that are trusted and
  not proved; each says what it is trusted for.

Functions whose name begins with `law_` state what holds across functions, for example that
a planned transaction carries exactly the signatures that its message requires
(`transaction`), that a withdrawal adds up to the amount that is asked for (`selection`),
that it draws on the largest stakes first (`ranking`, `selection`), that all stake is
deposited in its order up to the first that is refused (`deposit`), that a new validator
gets the least seed whose stake account is free (`validators`), and that an update reaches
every entry that needs it (`update`).
