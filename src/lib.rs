//! Animation keys of a sprite-based fighting game sample and the policy that
//! decides which animation plays after the current one has finished.
pub mod file;
pub mod pack;
pub mod playback;
pub mod translation;

pub use file::FileId;
pub use pack::{AnimationKey, PackKey};
pub use playback::PlaybackKey;
pub use translation::{FightTranslation, TranslateAnimation, Transition};
