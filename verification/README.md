# vulkan_rust

A small Vulkan game engine whose decision-making core is verified with Verus.

- `src/` is the verified library: the order in which bootstrap loaders run, the
  choices made while picking a graphics card and setting up a swapchain, render pass
  and pipeline plans, vertex layouts, GPU buffer and model bookkeeping, image layout
  transitions and PNG pixel handling, descriptor plans, and the state machine of the
  main loop. Each public function states its result in its contract, and the laws
  that span several functions are public proof functions.
- `tests/` runs the library on concrete values.
- `app/` is the program around it: the window, the Vulkan calls that carry out the
  library's plans, and the scene, whose transforms and cameras are floating-point
  math.
