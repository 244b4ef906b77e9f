# pi_spine_rs

A Spine skeleton renderer whose decisions are verified with Verus.

- `src/` is the verified library: the staging of vertex and index bytes
  into shared GPU buffers, the recorder that turns Spine commands into draw
  plans, the renderers of a world and the commands that drive them, the
  pipeline and shader pools, the batcher, and the material layouts. Every
  GPU object is a type parameter: the library decides, the application
  makes the objects.
- `app/` is the GPU, ECS and asset side (wgpu, the render graph, the asset
  managers): it makes the buffers, bind groups, pipelines and textures that
  the library asks for, and runs the systems.
- `tests/` exercises the library on concrete values.
