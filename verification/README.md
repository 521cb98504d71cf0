# nostrum

Code generation for using plain structs as objects behind traits, and for
building mock objects of a trait out of an `impl` block, with the generators
proved against their specifications.

- `src/` is the verified library. The generators work on plain models of
  the syntax they read (`syntax.rs`) and produce flat token sequences
  (`tokens.rs`); `brackets.rs` defines well-bracketed token sequences.
  `closure_expr.rs`, `closure_type.rs`, `mock_struct.rs`, `impl_trait.rs`,
  `init_mock.rs` and `nostrumock_macros.rs` make up the mock attribute;
  `nostrum_attr.rs` is the object attribute, which turns `impl Cat { .. }`
  into a trait `CatObj` of the methods that take `self` and its
  implementation for `Cat`; `nostrum_macros.rs` holds `object`, the same
  attribute under another name, and `use_obj`, which writes a type (the
  one it is given, else the type of the first parameter) in a function's
  signature as `impl` of its object trait; `attr_syntax.rs`
  reads the attributes' own arguments (`let name = expr`,
  `#[nostrum(default = expr)]`); `cat_obj.rs` is the shape of object code
  for a struct `Cat`, with a placeholder object `Test`.
- `app/` is the edge with the compiler: it parses `impl` blocks with syn
  into the library's models, hands the library the raw tokens of the
  attributes' arguments, and turns the library's tokens back into a token
  stream.
- `tests/` runs the library.
