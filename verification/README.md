# wgpu_circles

A circle in a window. G turns gravity on and off, the space bar makes the circle jump while
gravity is on, the floor throws it back, and escape ends the program.

The library under `src/` is verified with Verus. It decides what is drawn and what happens when:

- `scalar`: single-precision numbers by their bit patterns, and their order
- `bytes`: how numbers lie in memory
- `vertex`, `uniforms`: what the vertex shader reads, and the layout of the vertex buffer
- `circle`: the mesh of a filled circle
- `device`: the device that is asked for
- `surface`: the choice of a surface format, and the configuration of the surface
- `pipeline`: the shaders and the pipeline that runs them
- `state`: the scene and its buffers, resizing, and what follows from each answer of the surface
- `app`: the reactions to window events and the course of a frame, as actions and outcomes
- `laws`: what holds of the application as a whole

`app/` runs it: it opens the window and the device, takes the actions that the library asks for
and hands back what came of them. Arithmetic in floating point is done there too.
