# rvllm

The parts of an LLM inference engine that decide what runs on the GPU, written
in Verus: the contracts of its functions are proved, but for the few outside calls
named at the end.

The device, the file system, the network and floating-point arithmetic are
outside. The library takes what they answered as plain values and returns what
is to be done next: a kernel launch with its arguments, a call of a shared
library, a list of operations, a request to send.

## Layout

| Path | What it holds |
|---|---|
| `src/arch.rs`, `dtype.rs`, `ids.rs`, `shape.rs`, `error.rs`, `env.rs` | compile targets, element types, ids, shapes, typed errors, known environment variables |
| `src/text.rs`, `paths.rs` | decimal numerals, trimming, splitting; directories and file paths |
| `src/hf.rs` | strict reading of a Hugging Face `config.json` |
| `src/symbols.rs`, `src/kernels/` | symbol tables, PTX modules, kernel handles |
| `src/mem/` | arenas, regions, tensors, KV cache layout, streams, capture, context initialization |
| `src/metadata/` | the packed metadata buffer of a step |
| `src/attention/`, `src/cutlass/` | attention and matrix-multiplication backends: loading, checking, preparing launches |
| `src/fused/` | raw kernel launches, FP8 conversion, argmax and gather references |
| `src/runtime/` | requests, scheduler, engine, the Gemma 4 layer, the bring-up probe |
| `src/chat.rs`, `src/chat_view.rs` | the state behind the two-pane chat window |
| `tests/` | the library from outside |
| `app/` | the probe, the CUDA driver, shared libraries, the chat window, floating-point references |

## A layer as a list

`runtime::gemma4_layer_exec` plans one decoder layer as a list of device
operations. `LayerCall::forward_run` says which operations, in which order, for
every combination of weight formats, kernels and phases, and where planning ends
in an error. `runtime::layer_laws` states what holds of every such list: each
projection reads an activation that an earlier operation wrote, block scales are
never null, channel scales are never dropped, the layer scalar is applied once.

## What is trusted

`str::trim` of the standard library, `sha2::Sha256::digest`, and the accessors of
`serde_json::Value` that `src/hf.rs` calls. Their contracts stand in
`src/text.rs`, `src/metadata/layout.rs` and `src/hf.rs`.
