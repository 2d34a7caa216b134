//! What is written into the tags of an audio file, and in which dialect.
//!
//! Reading and writing the audio container is the caller's. Decided here:
//! which tag dialect a container takes, if any, and the edits that bring a
//! track's title, artists, album and cover into a tag, in order.

use crate::util::same_text;
use vstd::prelude::*;

verus! {

/// The dialect of the tags that a container carries.
#[derive(Clone, Copy, Debug, PartialEq, Eq, Structural)]
pub enum TagDialect {
    /// ID3v2, the tags of MP3 files.
    Id3v2,
    /// Vorbis comments, the tags of FLAC files.
    VorbisComments,
}

/// The format of a cover image.
#[derive(Clone, Copy, Debug, PartialEq, Eq, Structural)]
pub enum CoverMime {
    Jpeg,
    Png,
}

#[derive(Clone, Copy, Debug)]
pub struct TrackInfo<'a> {
    /// Title of the track
    pub title: &'a str,
    /// Artist(s) of the track
    pub artists: &'a Vec<&'a str>,
    /// Album name
    pub album: &'a str,
    /// Cover art image data (JPEG or PNG)
    pub cover_data: &'a [u8],
    /// Format of the cover image
    pub cover_mime_type: CoverMime,
}

/// One edit of a tag.
#[derive(Debug, PartialEq, Eq)]
pub enum TagEdit {
    /// The title becomes this text, whatever it was.
    SetTitle(String),
    /// This artist is added behind the artists already there.
    AddArtist(String),
    /// The album becomes this text, whatever it was.
    SetAlbum(String),
    /// The first picture becomes this front cover.
    SetFrontCover { mime: CoverMime, data: Vec<u8> },
}

/// The dialect for a container extension: ID3v2 for `mp3`, Vorbis comments
/// for `flac`, none for any other.
pub open spec fn dialect_of(extension: Seq<char>) -> Option<TagDialect> {
    if extension == "mp3"@ {
        Some(TagDialect::Id3v2)
    } else if extension == "flac"@ {
        Some(TagDialect::VorbisComments)
    } else {
        None
    }
}

/// Whether files with this extension carry tags that can be written.
pub open spec fn carries_tags(extension: Seq<char>) -> bool {
    dialect_of(extension) is Some
}

/// Picks the tag dialect for a container extension. An extension without a
/// dialect means that the file gets no tags, which is no failure.
pub fn tag_dialect(extension: &str) -> (dialect: Option<TagDialect>)
    ensures
        dialect == dialect_of(extension@),
{
    if same_text(extension, "mp3") {
        Some(TagDialect::Id3v2)
    } else if same_text(extension, "flac") {
        Some(TagDialect::VorbisComments)
    } else {
        None
    }
}

/// Whether `edits` are the edits for `info`: the title, each artist in turn,
/// the album, and the cover as front cover.
pub open spec fn edits_for(info: TrackInfo, edits: Seq<TagEdit>) -> bool {
    let artists = info.artists@.len() as int;
    &&& edits.len() == artists + 3
    &&& edits[0] matches TagEdit::SetTitle(title) && title@ == info.title@
    &&& forall|i: int|
        0 <= i < artists ==> ((#[trigger] edits[i + 1]) matches TagEdit::AddArtist(artist)
            && artist@ == info.artists@[i]@)
    &&& edits[artists + 1] matches TagEdit::SetAlbum(album) && album@ == info.album@
    &&& edits[artists + 2] matches TagEdit::SetFrontCover { mime, data } && mime
        == info.cover_mime_type && data@ == info.cover_data@
}

/// Lists the edits that write a track's data into a tag.
pub fn tag_edits(info: &TrackInfo) -> (edits: Vec<TagEdit>)
    ensures
        edits_for(*info, edits@),
{
    let mut edits: Vec<TagEdit> = Vec::new();
    edits.push(TagEdit::SetTitle(info.title.to_owned()));
    let mut i: usize = 0;
    while i < info.artists.len()
        invariant
            i <= info.artists@.len(),
            edits@.len() == i + 1,
            edits@[0] matches TagEdit::SetTitle(title) && title@ == info.title@,
            forall|k: int|
                0 <= k < i ==> ((#[trigger] edits@[k + 1]) matches TagEdit::AddArtist(artist)
                    && artist@ == info.artists@[k]@),
        decreases info.artists@.len() - i,
    {
        edits.push(TagEdit::AddArtist(info.artists[i].to_owned()));
        i = i + 1;
    }
    edits.push(TagEdit::SetAlbum(info.album.to_owned()));
    edits.push(
        TagEdit::SetFrontCover {
            mime: info.cover_mime_type,
            data: vstd::slice::slice_to_vec(info.cover_data),
        },
    );
    edits
}

} // verus!
