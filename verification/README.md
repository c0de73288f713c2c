# axiom_parser

A lossless, total parser for the Axiom language, verified with Verus: a token
stream goes in, a concrete syntax tree (green/red tree) and a list of
diagnostics come out. Alongside the parser: typed AST views over the tree,
the tree's coverage checks, a canonical snapshot serializer, and the type
checker's self-contained parts: match exhaustiveness, unification of generic
type parameters, the scoped type environment, and the intrinsic functions.

## What is proved

- `parse` never panics and always terminates (every grammar loop consumes a
  token or stops; recursion is bounded by a depth guard).
- The tree is lossless: its text is exactly the text of the input tokens
  (an `Eof` token counts only as the last one), its significant text (neither
  trivia nor `Eof`) is exactly the lexer's, and every trivia token is a leaf
  of the same kind and text. So a parse of a token list whose only `Eof`, if
  any, is its last token passes `check_all`.
- The event stream the grammar emits is well nested at every step, and each
  grammar production completes a node of the kind it promises.
- A token stream whose first significant token begins an item yields that
  item's node; no grammar step completes an `Error` node without a new
  diagnostic, so a tree with an `Error` node always comes with diagnostics.
- From a well-nested event stream, the tree's outline (which nodes nest in
  which, in order, with their kinds) is exactly the one the events describe,
  forward parents included, and it holds one node per `Start` event; the leaf
  tokens of any node tile its span.
- The tree builder's outline grows by one opening per `start_node` and one
  closing per `finish_node`; leaves leave it unchanged.
- The serializer's output is stated character for character.
- Dropping a tree, however deep, never recurses once per level.
- The bridge from the lexer's kinds always yields a token kind, trivia exactly
  for the lexer's trivia.
- Unification only adds bindings, and when it succeeds, substituting its
  bindings into the expected type gives back the actual type.
- A match with an unguarded wildcard arm is exhaustive; guarded arms cover
  nothing.
- In the type environment a name resolves to its innermost binding; a
  definition is found right after it is made and leaves other names alone.
- The id walks over the lowered program: the highest id bounds every item's,
  and the id collection lists every id under an expression in pre-order with
  its kind's name.
- The collect pass: a written type resolves exactly as specified (built-in
  names, `Self`, the environment, type parameters by position, generic
  instances); struct fields are recorded in the type map and struct names
  defined in order; each trait enters the registry with its required and
  default method signatures and its supertraits. A struct literal's fields
  are checked against its struct's: missing, unknown, count and value-type
  diagnostics come out exactly as specified, in order.

## Layout

- `src/syntax_kind.rs`, `src/lexer_kind.rs`, `src/token.rs`, `src/text.rs`:
  syntax kinds and the bridge from the lexer's kinds, tokens, and text helpers.
- `src/green.rs`, `src/syntax.rs`: the green tree and its builder, and the red
  tree with offsets and parent links.
- `src/parser.rs`, `src/grammar/`: the cursor over the tokens and the
  grammar productions.
- `src/event.rs`: the event stream and the tree it builds.
- `src/invariants.rs`, `src/snapshot.rs`: coverage checks and the snapshot
  serializer.
- `src/ast/`: typed views over the tree.
- `src/exhaustiveness.rs`, `src/unify.rs`, `src/env.rs`, `src/builtins.rs`,
  `src/hir.rs`, `src/typeck.rs`: the type checker's parts.
- `tests/`: tests run against the compiled library.
