# mini_erp

The shared library of MiniERP, an ERP front end: exact monetary amounts, role-based
permissions, the sidebar's navigation rules, the English and Urdu interface texts, keyboard
shortcuts, and the rules behind the pages (status badges, form checks, list summaries).

Every function in `src/` is written in Verus and carries a contract. Verus proves each
contract from the function's body, except for the small wrappers marked
`#[verifier::external_body]` in `decimal` (the calls into `rust_decimal`) and `text` (the
calls into `std` strings and characters): their contracts, and the facts stated beside the
names of their results, are trusted, written from the source and documentation of the code
they call, and not proved.


- `money`, `money_ops`, `money_order`, `money_laws` — `Money`, a decimal amount held as sign,
  96-bit mantissa and scale; its arithmetic is done by `rust_decimal` through the wrappers in
  `decimal`, whose contracts name what each call returns.
- `rbac`, `navigation`, `i18n`, `shortcuts` — who may see what, which sidebar entry is
  highlighted, how a key is translated, how the help overlay reacts to keys.
- `pages/*` — page rules, one module per page or form.
- `text` — the character-level helpers they share (trimming, words, ordering, parsing).
- `models` — the records exchanged with the server.

`app/` holds what the library does not: floating-point figures, JSON and SQLite encodings of
amounts, and a small command-line program that prints the sidebar of a role.
