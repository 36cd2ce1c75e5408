# canary-engine

Speech-to-text with the Canary 1B v2 ONNX models: a preprocessor, an encoder
and a decoder session, and a token vocabulary.

The library in `src/` decides what is done and is verified with Verus. It does
no input or output and runs no model: it hands out actions (create this tensor,
run that session on these slots, read this output) and takes their outcomes.
`app/` performs the actions with ONNX Runtime.

- `engine`: configuration, the loaded models, the start of a transcription
- `loader`: the order in which the files of a model directory are probed and
  opened
- `transcription`: from samples through preprocessor and encoder to the prompt
- `decoder`: the dimensions of the decoder's cache and the decoding loop
- `logits`, `tensor`: scores as bit patterns, their greatest element, tensors
  as plain values
- `action`, `slots`: the actions, and the tensors that they create
- `error`, `text`: errors and their messages
- `runtime`: the trusted items, all of them about `ort`
- `decode_laws`, `pipeline_laws`, `slot_laws`: what holds of whole runs
