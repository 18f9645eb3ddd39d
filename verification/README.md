# exo_class_file

A reader and checker of Java class files, with the pieces of a virtual
machine's front end that work on them, written in Verus: every function of
the library states what it does and Verus proves it.

- `stream`, `item`: reading a class file byte by byte into its constant
  pool, fields, methods, attributes and instructions; checking the constant
  pool's indices and structure, and the instructions of a method's code.
- `parser`: a small character lexer, and on it the grammar of names and
  descriptors (`item::ids`).
- `bytecode`: splitting a method's code into basic blocks and turning them
  into a static single assignment form.
- `testlang`: the variable scopes of a small test language's compiler.
- `allocator`: a linked-list allocator over the addresses of a heap: first
  fit, the rest of a region given back to the free list, and no two blocks,
  free or handed out, overlapping.
- `structure`: laying out the fields of a structure, largest first, each
  after the padding that aligns it, then padding up to a multiple of the
  largest alignment.
- `fnvmap`: the few operations of FNV hash maps that the library uses,
  stated as trusted contracts.

`app/` holds a command-line program that reads a class file, checks it and
prints the blocks of one of its methods.
