# backend

The rules of an online auction house, written in Verus and proved against
their contracts: listings and their validation, search and stable sorting of
the catalogue, bids and purchases, notifications and their texts, chat rooms,
account states, image upload slots, live subscriptions to items and users,
the XML export of the catalogue, and the application settings.

- `src/` is the verified library. Amounts are decimal text compared through
  `bigdecimal`; names and addresses are measured in graphemes through
  `unicode-segmentation` and checked with `validator`.
- `tests/` runs the library on concrete values.
- `app/` is the HTTP server around it: configuration files, the database,
  routes, tokens and the recommendation model.
