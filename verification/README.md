# vulkan_frames

The frame logic of a deferred renderer, verified with Verus.

`src/` decides; it holds no device. It says what is created for a renderer and in which order, what
is recorded for a frame, which objects of which frame in flight are waited for, submitted and shown,
what an error leads to, and how everything is destroyed. Where a decision depends on what the
graphics interface answers, the library is a state machine: it names the next call, takes the
answer, and says what comes next.

- `scene`, `engine`, `gameloop`: what is shown, by which program, and the order of one turn of its
  main loop.
- `vulkan::manager`: the state of the renderer.
- `vulkan::setup`, `vulkan::instance`, `vulkan::teardown`: creating and destroying it.
- `vulkan::render_order`, `vulkan::gpass`, `vulkan::resolve_pass`, `vulkan::post_process`,
  `vulkan::frame`: what is recorded for a frame.
- `vulkan::recording`, `vulkan::script`: carrying out a recording or a list of calls.
- `vulkan::presentation`: the frames in flight, and replacing an outdated swapchain.
- `vulkan::gpass_laws`, `vulkan::frame_laws`, `vulkan::sync_laws`: what holds of whole passes and
  frames.
- `vulkan::outside`: the numbers and names that come from the `ash` crate. Their contracts are
  trusted.

`app/` carries the decisions out with `ash`, `ash-window`, `vk-mem` and `winit`. The parts of an
engine that a renderer is built from (surface, swapchain, descriptor manager and so on) are the
trait `Parts`.
