# rdynarmic

The front end of a binary translator for 32-bit ARM guests, verified with
Verus. It decodes ARM, 16-bit Thumb and 32-bit Thumb code and translates it,
block by block, into an intermediate representation.

- `src/ir/` is the representation: values, operations, blocks, their ends, the
  locations of guest code, and the emitter that appends instructions.
- `src/frontend/a32/decoder*.rs` give for every word, halfword or pair of
  halfwords the instruction that it encodes.
- `src/frontend/a32/translate/` holds the translation of each family of
  instructions, the dispatch by kind, and the translation of blocks.
- `src/frontend/a32/translate/laws*.rs` and `decoder_laws.rs` hold what is
  proved of all instructions and all blocks.
- `src/bits.rs` has rotation and sign extension.

The translation of an instruction is specified as a function from the state of
the emitter to its next state and to whether translation of the block goes on:
`arm_x` does what `arm_x_ir` says. Families of instructions that have no
translation here end the block with `Terminal::Interpret`:

- ARM: transfers of several registers, division, extension, reversal, bit
  fields, wide moves, counting of zeros, saturation, packing, barriers, and
  scalar floating point (in Thumb code too).
- 32-bit Thumb: loads of words, stores, dual, exclusive and multiple
  transfers, table branches, multiplication and division, parallel arithmetic,
  and miscellaneous operations on registers.
