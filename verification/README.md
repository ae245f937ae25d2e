# uasset_parse

A parser for cooked Unreal Engine 4 packages: the `.uasset` summary and its
name, import and export tables, and the exports that the `.uexp` (and, for
textures, the `.ubulk`) holds — plain objects of tagged properties, data and
curve tables, textures, skeletal meshes, skeletons and animation sequences.

`src/` is verified with Verus: each parser's result (value, end position, or
error messages) is proved equal to a spec function over the input bytes.
Values that the format stores as `f32` are kept as their bits, and animation
keys as stored.

`app/` holds what Verus does not check: reading the files from disk, turning
float bits and compressed keys into `f32` values (and adding one animation's
tracks to another's), and serde serialisation of parsed packages.
