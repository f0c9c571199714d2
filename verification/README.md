# transaction_queue_api

The decision logic of a transaction queue service, verified with Verus.

- `src/` is the verified library:
  - `text`: decimal rendering of integers, character-sequence search.
  - `account`: account tiers, their budgets, the tier an account id announces,
    and the lookup-or-insert search for an account's stored rate limit.
  - `rate_limit`: one sliding-window rate limit check: the request log key,
    the window bounds and the decision on the store's count.
  - `queue`: priority queue names, base scores, 1-based positions, queue
    search and the processing time estimate.
  - `validation`: text length, integer range and JSON payload checks, with the
    messages of their refusals.
  - `submit`: the submission of one transaction as a machine from state and
    reply to next state and action, with its laws.
- `app/` is the HTTP service around it (axum, Redis through deadpool-redis,
  PostgreSQL through diesel-async): it performs the outside calls that the
  library asks for.
- `tests/` runs the library on concrete values.
