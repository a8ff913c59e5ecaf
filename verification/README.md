# agritrust

Escrow of payments for agricultural trades between a farmer and a buyer,
verified with Verus.

- `src/types.rs`: trade records, addresses, errors (with their on-chain
  codes), events, token transfers and the outcome of an operation.
- `src/model.rs`: what each operation decides, as spec functions of the stored
  record and the request.
- `src/contract.rs`: the operations (`create_trade`, `deposit_payment`,
  `confirm_delivery`, `confirm_receipt`, `raise_dispute`, `cancel_trade`,
  `get_trade`), each proved to decide exactly as `model.rs` says.
- `src/laws.rs`: properties of the escrow: per trade, the lifecycle, final
  states, authorization, exact price movements, conservation of escrowed
  funds over any sequence of requests, funding at most once and the intended
  run; over a whole store of trades, that the escrow's token holdings in each
  asset stay equal to the sum of the prices of its funded, delivered or
  disputed trades in that asset.
- `app/lib.rs`: the Soroban contract around the library: storage, `require_auth`,
  token transfers, events and the conversions between on-chain values and the
  library's plain values.
- `tests/`: the lifecycle scenarios against an in-memory host, and the
  decisions of each operation on concrete records.
