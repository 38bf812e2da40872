# clarity_typing

A type checker for contracts in the Clarity language, written in Verus. What each function gives
and changes is stated in its contract and proved.

A contract is a list of expressions. The checker gives a type to every one of them, enters what the
contract defines into its analysis, and accounts for the work that this takes. Where something is
wrong it says what, and in which expression.

- `names`, `name_map`: names, contract and trait identifiers, and maps in the order of names
- `types`, `values`, `subtyping`: types and their sizes, values and their types, which types stand
  for which
- `representations`, `parse`, `define`: expressions, and the types, traits and definitions that
  they describe
- `costs`, `errors`: what an analysis may spend, and what it can find wrong
- `functions`, `natives`, `variables`: function types, and the functions and variables that every
  contract has
- `analysis`, `contexts`: analysed contracts, and what is known while a contract is analysed
- `traits`: when a type or a trait does for another
- `state`, `typing`, `definitions`: the model of an analysis, and what it comes to
- `sequences`, `assets`, `chain`, `serialization`: functions on sequences, on tokens and on the
  chain, and how large values are when they are written out
- `checker`, `special`, `definitions`: the checker itself
- `progress`, `nesting`, `laws`: what holds of every analysis
