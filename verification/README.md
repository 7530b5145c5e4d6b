# atlas77

The Atlas77 toolchain as a Verus library: the compiler passes from a syntax
tree to a program of the virtual machine, and the virtual machine that runs
it, each function with a contract proved by Verus.

## Layout

- `src/frontend`: tokens, the parser of items (`parser`, `grammar`,
  `ast`), and the syntax tree of function bodies that the lowering pass reads
  (`syntax`).
- `src/hir`: the high-level intermediate representation (types and their
  identities, expressions, statements, signatures, modules), the lowering pass
  (`lowering`), the name-ordered map that modules keep their functions in
  (`names`) and the type checker (`type_check`).
- `src/codegen.rs`: the code generator, from a checked module to a VM program.
- `src/hlir`: the variable context of the lower-level lowering.
- `src/vm`: the VM: values, object memory with reference counts, stack,
  variables, instructions, the interpreter (`machine` states what each
  instruction does, `interp` does it) and the standard libraries.
- `src/bytecode.rs`, `src/varmap.rs`, `src/span.rs`: the byte-code format,
  a recycling name map, and source spans.
- `app/`: the `atlas_77` command. It reads a compiled program (RON), runs it
  on the VM and does what the VM hands back to its caller: floating-point
  work, console and file input and output, the clock and random numbers.
- `tests/`: tests of the library on concrete values.

Each pass returns `None` where the computation has no result (a type that the
pass does not know yet, a construct the generator cannot compile); the
contracts say exactly on which inputs that happens.
