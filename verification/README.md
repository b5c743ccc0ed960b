# vectorflow

Particles drifting through a user-given vector field, drawn in the browser.

- `src/` is the verified library:
  - `particle.rs`: the integer core of a particle (colour, space, lifetime,
    tick), its spawn draws and its liveness test;
  - `raster.rs`: sampling an uploaded picture and the off-screen RGBA buffer
    the particles are plotted into;
  - `canvas.rs`: the canvas state and what it does on each message.
- `app/` is the yew page around it: the float motion of the particles, the
  canvas, the image decoding and the video recorder.
- `tests/` runs the library on concrete values.
