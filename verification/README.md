# inverselerp

The decision logic of `srvcs-inverselerp`, an orchestrator that computes
where `value` lies between `a` and `b` by asking `srvcs-floatsubtract` for
`value - a` and `b - a` and `srvcs-floatdivide` for their quotient, written in
Verus and proved against its contracts.

- `src/identity.rs`: the service identity (`index`), the dependencies and their URLs.
- `src/reply.rs`: the replies of `POST /` and their statuses (`ok`, `degraded`, `forward`, `malformed`).
- `src/evaluate.rs`: `ask`, and the evaluation as a state machine (`Pending::start`, `Pending::answer`, `Reading::read`).
- `src/laws.rs`: the whole evaluation as a function of the dependencies' answers, and what holds of it.
- `src/openapi.rs`: the OpenAPI document (`ApiDoc::openapi`).
- `app/`: the HTTP server: routes, JSON bodies, the calls to the dependencies and the loop that feeds their outcomes to the library.
