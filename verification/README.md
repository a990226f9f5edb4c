# gtk_compat

Runtime GTK loader with small wrappers, split in two:

- `src/` (verified with Verus): the symbol table (which C entry points exist,
  in which library each is looked up, which were found), and for every wrapper
  operation the exact C calls it amounts to given the symbols that were found,
  including the GTK 4 / GTK 3 fallbacks and the errors for missing entry points.
- `app/` (plain Rust): opening the shared libraries, resolving symbols,
  performing the calls the library decided on, the C trampolines for click
  handlers, and `Drop`/`Clone` for the widget wrappers.
