# bucky_game

The rules of a small Godot game, verified with Verus: Bucky's jump budget,
wall slides and wall hops; the arena's start area, sleeping-coins timer and
nearest-coin verdict; coin ownership and colouring; the hand that holds and
throws a coin; direction keys; and animation commands.

- `src/` is the verified library. It takes plain observations (booleans,
  integers, order keys of distances) and returns plain decisions.
- `app/` is the Godot extension (`godot` and `rand`): it reads the scene,
  calls the library, and performs the vector arithmetic, physics queries and
  node operations.
- `tests/` exercises the library on concrete values.
