# dm_spine_bevy

Bevy integration for a Spine 4.2 skeletal-animation runtime, split in two:

- `src/` is the verified library (Verus). It holds the decisions the
  integration takes:
  - `atlas_path`: deriving a skeleton's atlas asset path, held as source, path
    and label (override, or the
    stem without `-pro`/`-ess`/`-ios` plus `.atlas`, resolved next to the
    skeleton) and the image path of every atlas page;
  - `blend`: the Spine blend modes and the premultiplied-alpha blend state
    each is drawn with;
  - `color`: splitting packed `0xAARRGGBB` colours and resolving a render
    command's page and tints;
  - `mesh_data`: splitting interleaved vertex buffers into pairs;
  - `slots`: the index-parallel mesh / material / child slots of a skeleton;
  - `playback`: routing animation and skin requests made before and after
    the skeleton's asset has loaded.
- `app/` is the Bevy side: the plugin, the asset loaders, the skeleton
  component, the materials and the systems, which call the runtime and the
  library.
