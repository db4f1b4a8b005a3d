# rag_gateway

The document retrieval (RAG) index and the decision logic of an agent
gateway's HTTP endpoints, written in Verus and verified.

- `src/` is the verified library:
  - `text` — decimal rendering, substring search, `usize` parsing, and the
    lowercase mapping of `str::to_lowercase`;
  - `chunk` — how a chunk is stored (JSON metadata, `"\n\n---\n\n"`,
    content) and read back, with the read-back law;
  - `json` — the `serde_json` calls of the chunk store and of stored
    callbacks;
  - `document` — documents, requests, retrieved chunks, memory entries, errors;
  - `content` — where a document's text comes from (inline, URL, file) and
    how HTML and files become text (`nanohtml2text`, `Path::extension`);
  - `index` — items held each under its own key, and the laws of their
    listings;
  - `rag` — the index: its settings, documents, and reading chunks back;
  - `ingest` — what ingesting stores and which keys deleting forgets;
  - `query` — which chunks a query returns;
  - `context` — the context put before a prompt;
  - `hook` — the prompt hook;
  - `work` — worker items and their lifecycle;
  - `send` — routing outbound messages to channels;
  - `gateway` — stored callback records, callback keys, query limits, and
    the endpoints' error answers;
  - `clock` — random ids (with the form of their text) and timestamps.
- `app/` holds the asynchronous service over the memory backend, the axum
  handlers, and the JSON forms of the library's types.
- `tests/` runs the library on concrete values.
