//! Verified core of a Bevy integration for a Spine skeletal-animation runtime.

pub mod atlas_path;
pub mod blend;
pub mod color;
pub mod mesh_data;
pub mod playback;
pub mod slots;
