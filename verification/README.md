# ink_fmt

Building blocks of a formatter for the ink narrative scripting language, written in Verus.

- `src/syntax.rs`: a plain concrete syntax tree (`SyntaxNode`), the lookups that the typed
  views need (children by field name, named children), and the results of viewing a node as
  a typed node (`IncorrectKind`, `ExtraOr`, `NodeResult`).
- `src/type_sitter/ink.rs` and `src/type_sitter/ink/`: one typed view per node kind of the
  ink grammar, with accessors for fields and children, and the unions of kinds that fields
  and children may hold.
- `src/util/constrained_value.rs`: `Constrained`, a whitespace amount with lower and upper
  bounds and a desired value, with the laws of combining such amounts.
- `app/lib.rs`: copies a tree-sitter parse tree into a `SyntaxNode`.
