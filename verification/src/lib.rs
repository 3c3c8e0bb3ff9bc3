//! Game logic of a third-person player controller: cursor capture, footstep
//! pacing, walking and running, collision filtering, the player rig hierarchy,
//! FBX import settings and the UV debug texture.
pub mod engine;
