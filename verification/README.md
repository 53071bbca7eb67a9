# calendar_api

Calendar service of the Mairie 360 platform: events, their members, repetition rules and the
approval circuit.

- `src/` is the verified library (Verus): the rules an event must follow, the rights of a caller
  on an event, the parameters bound to each SQL query, the partial update of an event, and the
  decision each HTTP handler takes between its database calls. Each public function states its
  result in its contract; the properties that span several functions are proof functions named
  `lemma_*`.
- `app/` is the HTTP layer (actix-web, utoipa, the smart database of `mairie360_api_lib`): it
  reads requests and rows, hands plain values to the library, and writes what the library
  returns.
- `tests/` runs the library on concrete values.
