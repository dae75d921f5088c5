# via

A web framework for people who appreciate simplicity.

The framework's logic is a library verified with Verus (`src/`):

- `error`, `status`: the framework error (a status code and a source),
  its JSON form, `deny`, canonical errors and the `ResultExt` helpers.
- `params`, `query`, `encoding`, `text`: path and query parameters, the
  query string parser, percent-decoding and byte-exact string slicing.
- `guard`: composable predicates over bytes, header values, header maps and
  methods, with the laws of their connectives.
- `allow`, `resource`: dispatch on the request method and the
  `405 Method Not Allowed` answer with its `Allow` header.
- `body`: the request body limit, size hints, and how each frame of a body
  is counted, kept or refused.
- `cookies`: the allow list of the cookies middleware, the parsing of the
  `Cookie` header and the `Set-Cookie` headers of changed cookies.
- `rescue`, `response`, `next`: turning errors into responses, redirects,
  and the middleware stack of a request.
- `server`: the server configuration, the path length check and the
  decisions of the accept loop.
- `ws`: the web socket handshake checks, the accept key, the connection
  configuration and the relay state machine of a connection.

`app/` holds what is I/O: hyper requests and responses, the tokio accept
loop and connections, web socket tasks, serde, and the middleware
plumbing. It drives the verified decisions of the library.

The path router (`Router`, `Route` and the routing of a request) is built on
the `via-router` crate, which is not part of this build: `app/` takes the
routing as a `Routes` trait that an application implements, and the
library holds what happens once a route is found.

`tests/` exercises the library on concrete values.
