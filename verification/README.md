# moon

A binding to the LuaJIT C API whose logic is verified with Verus.

- `src/` is the verified library. `consts` holds the C API's numbers;
  `calls` describes C calls as values; `inlines` holds the helper macros
  of `lua.h` / `lauxlib.h` (index arithmetic, the call each helper stands
  for, the decisions between two calls); `error` the error type with its
  status codes and messages; `stack` the guard over pushed values;
  `state` the state and its builder and the panic message; `luaref` and
  `convert` small pieces; `text` decimal and byte-string text.
- `app/` declares the C API and performs the calls that the library
  describes, with the C-style unsafe signatures, and gives the types
  their `Drop`, `Display` and `std::error::Error` impls.
- `tests/` runs the library on concrete values.
