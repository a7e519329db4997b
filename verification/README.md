# srvcs-harmonicmean

The `srvcs-harmonicmean` service computes the harmonic mean of a list of
numbers without doing any arithmetic itself: it asks `srvcs-reciprocal` for
each reciprocal, `srvcs-floatadd` for the running sum, and `srvcs-floatdivide`
for `n / sum`.

- `src/` is the verified library: the service identity (`api::identity`), how
  a dependency's answer is read (`api::answer`), the replies and their
  statuses (`api::reply`), the evaluation as a sequence of steps
  (`api::evaluation`), the API description (`api::openapi`), the properties
  of whole evaluations (`api::laws`), and the settings (`config`).
- `app/` is the HTTP service around it: the routes, the calls of the
  dependencies, the JSON shapes, the environment.
- `tests/` runs the library, with simulated dependencies.
