# Turbine

Verified core of the Turbine engine for 3D content production.

`src/` is the library, written in Verus: every function carries a contract that
Verus proves.

- `mask`: run-length compressed sequences of 64-bit triangle masks.
- `index_flag`: an index and a flag packed into one word, and the ray mask that a
  last hit leaves for a chunk.
- `geometry`, `produce`, `triangle`, `consume`: quads, cubes and boxes over any
  scalar, virtual triangle lists that produce chunks of 64, and consumers that take
  quads, cubes and boxes as triangles.
- `tile`: tile grids, adaptive sub-tiling and the slots of sub-tile masks.
- `reactive`: the functional reactive geometry document, its pointers, the cache of
  shared function outputs and the layout of bones for physics.
- `scene`: scene resource handles, settings and OBJ mesh assembly.
- `world`: entity slots and their component masks.

`app/` holds what stays outside the verified library: floating point geometry,
ray casting, color and fog, the tile renderer, evaluation of reactive documents,
physics simulation, scenes and their backends interface, and file I/O.
