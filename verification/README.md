# sx_vault_media

A media-upload service for the SX vault. A client streams a video over gRPC; the
service runs the bytes, chunk by chunk, through a pipeline of operators that count
them, recognise the container format from the first bytes, and validate the result,
while progress events flow back to the client.

The library under `src/` is written in Verus: its functions carry `requires` /
`ensures` contracts that the verifier proves.

- `shared::utils::streaming` — the pipeline: operators (`StreamOperator`), the shared
  `PipelineContext`, `StreamPipe` (a list of boxed operators, `BoxedOperator`, that is
  itself an operator) and
  `PipeRun`, one run of a pipe over a stream fed chunk by chunk.
- `shared::utils::operators` — `FnOperator`, an operator assembled from hooks for
  chunks, the end of the stream and errors (`extract_it`, `validate_it`,
  `transform_it`, `load_it`).
- `shared::utils::composition` — validators, transformers and loaders over values.
- `vault_core` — the domain types, the metadata extractor (format detection through
  the `infer` crate), the video validator and the upload use case.
- `infra::adapters::inbound::grpc` — the replies a client following an upload receives.

`app/` holds the executable around the library: the Tokio runtime, the tonic server,
the broadcast event bus and the reading of the byte stream.
