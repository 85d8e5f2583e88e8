# xberg (verified core)

The error taxonomy, cooperative cancellation token and PDF page-range check of
the Xberg document-extraction library, written in Verus.

- `src/error.rs`: `XbergError`, its causes (`ErrorSource`), constructors,
  conversions from I/O, JSON, MessagePack and spreadsheet errors, the message
  text of each error, and its classification for the REST API, batch
  extraction and MCP, with the agreements between those classifications
  proved as lemmas.
- `src/cancellation.rs`: `CancellationToken`.
- `src/pdf/render_session.rs`: `PdfRenderSession`, which refuses out-of-range
  page indices before rendering.
- `src/text.rs`: verified decimal formatting used by the messages.
- `app/`: the `std::error::Error` and serde faces of the library types, and the
  render-session entry points that drive a PDF backend.
