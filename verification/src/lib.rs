//! Integer and control logic of a generative ambient audio engine: the
//! xorshift noise source, the fade/playback state machine shared by every
//! track, a generic delay line, the stochastic scheduling of plucks and
//! grains, stereo interleaving and the duration grammar of the renderer.
pub mod prng;
pub mod track;
pub mod delay;
pub mod granular;
pub mod pluck;
pub mod entropy;
pub mod frames;
pub mod swing;
pub mod duration;
pub mod reverb;
