# restaurant_service

The request logic of a restaurant ordering service, with machine-checked
contracts and proofs.

- `src/` is the verified library: pagination of listings (`pagination`),
  the replies of login, logout and protected pages (`session`), restaurant
  accounts and their MD5 password digests (`restaurant`), account users
  checked with `password-auth` (`user`), the two WeChat `code2Session` login
  flows as state machines (`wx`, `wx_user`), the head of a new order
  (`order`) and goods categories (`catalog`).
- `app/` is the HTTP service around it: axum routes, axum-login sessions,
  diesel queries and the HTTP call to WeChat. It runs the login state
  machines, performing each action and handing back its outcome.
- `tests/` holds the tests of the library.
