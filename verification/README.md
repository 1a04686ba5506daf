# minimal_d3d11

A window that draws a spinning, textured cube with Direct3D 11.

- `src/` is the verified library: the decisions of the window message loop
  (`event_loop`) and the byte sizes handed to the GPU (`layout`).
- `app/` is the program: window creation, Direct3D calls and the f32 matrix
  arithmetic of the scene, which call into the library.
- `tests/` runs the library on concrete values.
