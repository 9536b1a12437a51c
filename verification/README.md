# brd

A simple imageboard site that supports private walled-garden communication:
boards hold threads, threads hold replies, a post may carry an image.

The crate is a Verus library with a server program around it.

- `src/` — the library, verified by Verus:
  - `text` — HTML escaping, decimal formatting and parsing of integers;
  - `views` — the HTML of every page, each function's result stated exactly;
  - `filters` — the router: which page a method and a path ask for;
  - `handlers` — the request handlers as state machines that ask for database
    lookups and form reads and end in an answer; posting checks what is
    posted: every post needs an image, a new thread also needs text, a reply
    must name a thread of its board, and an uploaded file's name may not be
    empty, `.`, or hold a `..` component, so the file stays in the board's
    folder;
  - `db` — the order of the statements that store a post, an empty post
    refused before any of them;
  - `models` — boards and posts.
- `app/` — the server: warp routes, the sqlx queries, the multipart upload
  and file writes, and the loops that run the library's handlers.
- `tests/` — tests of the library on concrete values.

The server expects `DATABASE_URL` (a `.env` file works) and the seed
statements in `queries/seed_data.sql`; it listens on 127.0.0.1:8000.
