//! Building the tag record from what a sound file answered.

use vstd::prelude::*;
use crate::tags::Tags;
use crate::tags::TagsView;

verus! {

/// What an open sound file answered when it was asked for each of the ten
/// tags: the text of the tag, or `None` where the file carries no such tag.
#[derive(Debug)]
pub struct Lookup {
    pub title: Option<String>,
    pub copyright: Option<String>,
    pub software: Option<String>,
    pub artist: Option<String>,
    pub comment: Option<String>,
    pub date: Option<String>,
    pub album: Option<String>,
    pub license: Option<String>,
    pub track_number: Option<String>,
    pub genre: Option<String>,
}

/// The ten answers of a [`Lookup`] as plain text.
pub struct LookupView {
    pub title: Option<Seq<char>>,
    pub copyright: Option<Seq<char>>,
    pub software: Option<Seq<char>>,
    pub artist: Option<Seq<char>>,
    pub comment: Option<Seq<char>>,
    pub date: Option<Seq<char>>,
    pub album: Option<Seq<char>>,
    pub license: Option<Seq<char>>,
    pub track_number: Option<Seq<char>>,
    pub genre: Option<Seq<char>>,
}

impl View for Lookup {
    type V = LookupView;

    open spec fn view(&self) -> LookupView {
        LookupView {
            title: self.title.deep_view(),
            copyright: self.copyright.deep_view(),
            software: self.software.deep_view(),
            artist: self.artist.deep_view(),
            comment: self.comment.deep_view(),
            date: self.date.deep_view(),
            album: self.album.deep_view(),
            license: self.license.deep_view(),
            track_number: self.track_number.deep_view(),
            genre: self.genre.deep_view(),
        }
    }
}

/// The text of an answer: the answer itself, and the empty text for a tag
/// that is absent.
pub open spec fn or_empty(answer: Option<Seq<char>>) -> Seq<char> {
    match answer {
        Some(text) => text,
        None => Seq::empty(),
    }
}

impl LookupView {
    /// Whether the file carried none of the ten tags.
    pub open spec fn nothing_found(self) -> bool {
        &&& self.title is None
        &&& self.copyright is None
        &&& self.software is None
        &&& self.artist is None
        &&& self.comment is None
        &&& self.date is None
        &&& self.album is None
        &&& self.license is None
        &&& self.track_number is None
        &&& self.genre is None
    }

    /// The record that these answers make: each tag takes the text of its own
    /// answer, unchanged, and is empty where the answer is absent.
    pub open spec fn tags(self) -> TagsView {
        TagsView {
            title: or_empty(self.title),
            copyright: or_empty(self.copyright),
            software: or_empty(self.software),
            artist: or_empty(self.artist),
            comment: or_empty(self.comment),
            date: or_empty(self.date),
            album: or_empty(self.album),
            license: or_empty(self.license),
            track_number: or_empty(self.track_number),
            genre: or_empty(self.genre),
        }
    }
}

/// The text of one answer, or the empty string for an absent tag.
fn text_or_empty(answer: Option<String>) -> (text: String)
    ensures
        text@ == or_empty(answer.deep_view()),
{
    answer.unwrap_or(String::new())
}

/// The tags of a sound file, from its answers to the ten lookups.
///
/// A tag that the file carries is taken as it is; one that it does not carry
/// becomes the empty string.
pub fn get_sound_tags(found: Lookup) -> (tags: Tags)
    ensures
        tags@ == found@.tags(),
{
    Tags {
        title: text_or_empty(found.title),
        copyright: text_or_empty(found.copyright),
        software: text_or_empty(found.software),
        artist: text_or_empty(found.artist),
        comment: text_or_empty(found.comment),
        date: text_or_empty(found.date),
        album: text_or_empty(found.album),
        license: text_or_empty(found.license),
        track_number: text_or_empty(found.track_number),
        genre: text_or_empty(found.genre),
    }
}

/// A file that carries none of the ten tags gives the blank record.
pub proof fn lemma_nothing_found_gives_blank(found: LookupView)
    requires
        found.nothing_found(),
    ensures
        found.tags() == TagsView::blank(),
{
}

/// A tag that the file carries stands in the record letter for letter,
/// whatever the answers for the other nine tags were.
pub proof fn lemma_found_text_is_kept(found: LookupView)
    ensures
        found.title matches Some(text) ==> found.tags().title == text,
        found.copyright matches Some(text) ==> found.tags().copyright == text,
        found.software matches Some(text) ==> found.tags().software == text,
        found.artist matches Some(text) ==> found.tags().artist == text,
        found.comment matches Some(text) ==> found.tags().comment == text,
        found.date matches Some(text) ==> found.tags().date == text,
        found.album matches Some(text) ==> found.tags().album == text,
        found.license matches Some(text) ==> found.tags().license == text,
        found.track_number matches Some(text) ==> found.tags().track_number == text,
        found.genre matches Some(text) ==> found.tags().genre == text,
{
}

} // verus!
