//! The tag record, its blank value and the trait of what carries tags.

use vstd::prelude::*;
use vstd::std_specs::cmp::PartialEqSpec;

verus! {

/// The tags of a sound.
///
/// A tag that the sound does not carry is the empty string.
#[derive(Debug)]
pub struct Tags {
    /// The title of the sound.
    pub title: String,
    /// The copyright notice of the sound.
    pub copyright: String,
    /// The name of the software that created the sound.
    pub software: String,
    /// The name of the artist.
    pub artist: String,
    /// A free comment.
    pub comment: String,
    /// The creation date of the sound.
    pub date: String,
    /// The name of the album the sound comes from.
    pub album: String,
    /// The license of the sound.
    pub license: String,
    /// The track number of the sound.
    pub track_number: String,
    /// The genre of the sound.
    pub genre: String,
}

/// What a [`Tags`] record says, tag by tag, as plain text.
pub struct TagsView {
    pub title: Seq<char>,
    pub copyright: Seq<char>,
    pub software: Seq<char>,
    pub artist: Seq<char>,
    pub comment: Seq<char>,
    pub date: Seq<char>,
    pub album: Seq<char>,
    pub license: Seq<char>,
    pub track_number: Seq<char>,
    pub genre: Seq<char>,
}

impl TagsView {
    /// The record in which every tag is the empty text.
    pub open spec fn blank() -> TagsView {
        TagsView {
            title: Seq::empty(),
            copyright: Seq::empty(),
            software: Seq::empty(),
            artist: Seq::empty(),
            comment: Seq::empty(),
            date: Seq::empty(),
            album: Seq::empty(),
            license: Seq::empty(),
            track_number: Seq::empty(),
            genre: Seq::empty(),
        }
    }
}

impl View for Tags {
    type V = TagsView;

    open spec fn view(&self) -> TagsView {
        TagsView {
            title: self.title@,
            copyright: self.copyright@,
            software: self.software@,
            artist: self.artist@,
            comment: self.comment@,
            date: self.date@,
            album: self.album@,
            license: self.license@,
            track_number: self.track_number@,
            genre: self.genre@,
        }
    }
}

impl Clone for Tags {
    /// A record of its own that says what `self` says.
    fn clone(&self) -> (copy: Self)
        ensures
            copy == *self,
            copy@ == self@,
    {
        Tags {
            title: self.title.clone(),
            copyright: self.copyright.clone(),
            software: self.software.clone(),
            artist: self.artist.clone(),
            comment: self.comment.clone(),
            date: self.date.clone(),
            album: self.album.clone(),
            license: self.license.clone(),
            track_number: self.track_number.clone(),
            genre: self.genre.clone(),
        }
    }
}

impl PartialEq for Tags {
    /// Whether the two records say the same, tag by tag.
    fn eq(&self, other: &Self) -> (equal: bool) {
        self.title == other.title && self.copyright == other.copyright
            && self.software == other.software && self.artist == other.artist
            && self.comment == other.comment && self.date == other.date
            && self.album == other.album && self.license == other.license
            && self.track_number == other.track_number && self.genre == other.genre
    }
}

impl vstd::std_specs::cmp::PartialEqSpecImpl for Tags {
    open spec fn obeys_eq_spec() -> bool {
        true
    }

    open spec fn eq_spec(&self, other: &Self) -> bool {
        self@ == other@
    }
}

impl Eq for Tags {}

/// A record in which no tag is set.
pub fn empty() -> (tags: Tags)
    ensures
        tags@ == TagsView::blank(),
{
    Tags {
        title: String::new(),
        copyright: String::new(),
        software: String::new(),
        artist: String::new(),
        comment: String::new(),
        date: String::new(),
        album: String::new(),
        license: String::new(),
        track_number: String::new(),
        genre: String::new(),
    }
}

/// Implemented by whatever provides audio, to give out its tags.
pub trait AudioTags {
    /// A record of the tags of the audio source as they are now, owned by the
    /// caller: it borrows nothing from the source.
    fn get_tags(&self) -> Tags;
}

/// Two records are equal exactly when each of the ten tags reads the same in
/// both.
pub proof fn lemma_equal_iff_every_tag_agrees(a: Tags, b: Tags)
    ensures
        a.eq_spec(&b) <==> (a.title@ == b.title@ && a.copyright@ == b.copyright@
            && a.software@ == b.software@ && a.artist@ == b.artist@
            && a.comment@ == b.comment@ && a.date@ == b.date@ && a.album@ == b.album@
            && a.license@ == b.license@ && a.track_number@ == b.track_number@
            && a.genre@ == b.genre@),
{
}

/// Whatever `clone` may return for a record compares equal to that record.
pub proof fn lemma_clone_is_equal(original: Tags, copy: Tags)
    requires
        cloned::<Tags>(original, copy),
    ensures
        copy.eq_spec(&original),
        original.eq_spec(&copy),
{
}

} // verus!
