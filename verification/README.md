# ripalt

The request-identity and torrent-handling logic of a private BitTorrent
tracker, written in Verus and proved against its contracts.

- `src/id.rs`: identifiers (`Uuid`) and their hyphenated text.
- `src/identity.rs`: identities, the identity service that attaches them to
  requests, and the API policy that finds a request's credentials in its
  session or in a bearer token.
- `src/torrent.rs`: upload building, update and delete decisions, downloads
  of meta and NFO files, and the query plan for a page of the torrent list.
- `src/pages.rs`: which responses get an error page, and its template.
- `app/`: the actix-web server, the database handlers and token decoding
  around the library.
- `tests/`: tests of the library on concrete values.
