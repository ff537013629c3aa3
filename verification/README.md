# cgns_io

Reads and writes unstructured meshes (mefikit `UMesh`) as CGNS files.

- `src/` is the verified library: the element-type tables between the mesh model and
  CGNS (`element`), the 0-based/1-based node renumbering (`connectivity`), the reading
  decisions — which zone is read, how many coordinate columns, how a section becomes a
  connectivity block (`read`) — the writing plan — cell dimension, zone element count,
  coordinate names, one section per block with its element range (`write`) — the error
  type (`error`), and the laws relating writing and reading (`roundtrip`).
- `app/` holds `read` and `write`: the file I/O through the `cgns` crate, the mefikit
  meshes and the floating-point coordinates, around the library's decisions.
- `tests/` exercises the library, with mefikit as the reference for element properties.
