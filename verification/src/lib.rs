//! The textual tags of a sound: title, artist, album and the like.
//!
//! [`Tags`] is the record of the ten tags, [`empty`] its blank value.
//! [`get_sound_tags`] builds the record from what a sound file answered when
//! it was asked for each tag, and [`AudioTags`] is implemented by whatever can
//! give its tags out.

pub mod lookup;
pub mod tags;

pub use lookup::{get_sound_tags, Lookup, LookupView};
pub use tags::{empty, AudioTags, Tags, TagsView};
