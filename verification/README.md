# token_fundraiser

A token fundraiser program for the Solana runtime, split in two:

- `src/` is the verified library. It reads and writes the runtime's
  serialized input through offsets into one byte buffer, and decides each
  instruction (initialize, contribute, checker, refund) in stages: a stage
  checks and writes what it can, then finishes or names one cross-program
  invocation and the stage that continues after it.
  - `asm_ops`: word-sized reads, writes, key comparison and copy.
  - `account`: the input layout, the account accessors and the parser.
  - `state`: the fundraiser and contributor records.
  - `instructions`: the four instructions, the invocations they ask for and
    the stages that follow them.
  - `entry`: parsing and dispatch on the first byte of the instruction data.
  - `laws`: properties that span several functions.
- `app/` is the raw entrypoint the runtime calls: it finds the input region,
  runs the library's stages and performs the invocations with the
  `pinocchio` crates.
