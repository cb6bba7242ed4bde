//! The track: what is playing, who performs it, and its lyrics.
//!
//! Two tracks are the same track when their titles agree and their artists,
//! written on one line, agree. Lyrics arrive later and take no part in that.

use crate::text::{
    byte_len, dashes, is_trimmed, join, joined, lemma_trimmed_is_trimmed, push_dashes, trim,
    trimmed, utf8_len,
};
use vstd::prelude::*;
use vstd::std_specs::cmp::PartialEqSpecImpl;
use vstd::utf8::{is_ascii_chars, is_ascii_chars_encode_utf8};

verus! {

/// The text that stands for lyrics that were not found.
pub const NO_LYRICS: &'static str = "No lyrics found";

/// The text that stands for lyrics that were not found.
pub open spec fn no_lyrics() -> Seq<char> {
    "No lyrics found"@
}

/// The artists on one line: their names in order, separated by a comma and
/// a space.
pub open spec fn artist_line(artists: Seq<Seq<char>>) -> Seq<char> {
    joined(artists, ", "@)
}

/// Each text of `names`, trimmed.
pub open spec fn all_trimmed(names: Seq<Seq<char>>) -> Seq<Seq<char>> {
    Seq::new(names.len(), |i: int| trimmed(names[i]))
}

/// One song as the music service shows it.
#[derive(Clone, Debug)]
pub struct Track {
    /// The title.
    pub name: String,
    /// The performers, in the order in which the service names them.
    pub artists: Vec<String>,
    /// The lyrics, or [`NO_LYRICS`] while none are known.
    pub lyrics: String,
}

/// What a [`Track`] holds, as plain mathematical values.
pub ghost struct TrackView {
    pub title: Seq<char>,
    pub artists: Seq<Seq<char>>,
    pub lyrics: Seq<char>,
}

impl TrackView {
    /// Whether `self` and `other` are the same track: the titles agree and
    /// the artist lines agree. The lyrics are not looked at.
    pub open spec fn same_track(self, other: TrackView) -> bool {
        self.title == other.title && artist_line(self.artists) == artist_line(other.artists)
    }

    /// Whether the title and every artist name are free of surrounding
    /// whitespace.
    pub open spec fn is_normalized(self) -> bool {
        &&& is_trimmed(self.title)
        &&& forall|i: int| 0 <= i < self.artists.len() ==> is_trimmed(#[trigger] self.artists[i])
    }

    /// The line that names the track: title, a dash, the artist line.
    pub open spec fn heading(self) -> Seq<char> {
        "| "@ + self.title + " - "@ + artist_line(self.artists) + " |"@
    }

    /// The line above and below the heading: as many dashes between two
    /// plus signs as the title and the artist line have bytes, and five more.
    pub open spec fn border(self) -> Seq<char> {
        "+"@ + dashes(utf8_len(self.title) + utf8_len(artist_line(self.artists)) + 5) + "+"@
    }

    /// The whole block: the heading in its box, an empty line, the lyrics.
    pub open spec fn rendered(self) -> Seq<char> {
        self.border() + "\n"@ + self.heading() + "\n"@ + self.border() + "\n\n"@ + self.lyrics
    }
}

impl View for Track {
    type V = TrackView;

    open spec fn view(&self) -> TrackView {
        TrackView { title: self.name@, artists: self.artists.deep_view(), lyrics: self.lyrics@ }
    }
}

impl Default for Track {
    /// The track with no title, no artists and no lyrics found.
    fn default() -> (track: Track)
        ensures
            track@ == (TrackView { title: Seq::empty(), artists: Seq::empty(), lyrics: no_lyrics() }),
            track@.is_normalized(),
    {
        let track = Track {
            name: String::new(),
            artists: Vec::new(),
            lyrics: String::from_str(NO_LYRICS),
        };
        assert(track.artists.deep_view() =~= Seq::<Seq<char>>::empty());
        track
    }
}

impl PartialEq for Track {
    /// Whether `self` and `other` are the same track, whatever their lyrics.
    fn eq(&self, other: &Track) -> (same: bool) {
        self.name == other.name && join(&self.artists, ", ") == join(&other.artists, ", ")
    }
}

impl PartialEqSpecImpl for Track {
    open spec fn obeys_eq_spec() -> bool {
        true
    }

    open spec fn eq_spec(&self, other: &Track) -> bool {
        self@.same_track(other@)
    }
}

impl Track {
    /// The track with no title, no artists and no lyrics found.
    pub fn new() -> (track: Track)
        ensures
            track@ == (TrackView { title: Seq::empty(), artists: Seq::empty(), lyrics: no_lyrics() }),
            track@.is_normalized(),
    {
        Track::default()
    }

    /// `self` with `name`, trimmed, as its title.
    pub fn name(self, name: &str) -> (track: Track)
        ensures
            track@ == (TrackView { title: trimmed(name@), ..self@ }),
            self@.is_normalized() ==> track@.is_normalized(),
    {
        Track { name: trim(name), artists: self.artists, lyrics: self.lyrics }
    }

    /// `self` with the text `artists`, trimmed, as its one entry of
    /// performers, in place of those it had. The text is taken as it is: a
    /// ready-made artist line stays one entry.
    pub fn artists(self, artists: &str) -> (track: Track)
        ensures
            track@ == (TrackView { artists: seq![trimmed(artists@)], ..self@ }),
            artist_line(track@.artists) == trimmed(artists@),
            self@.is_normalized() ==> track@.is_normalized(),
    {
        let mut names: Vec<String> = Vec::new();
        names.push(trim(artists));
        assert(names.deep_view() =~= seq![trimmed(artists@)]);
        Track { name: self.name, artists: names, lyrics: self.lyrics }
    }

    /// `self` with the performers `names`, each trimmed and in the same
    /// order, in place of those it had.
    pub fn artist_list(self, names: &Vec<String>) -> (track: Track)
        ensures
            track@ == (TrackView { artists: all_trimmed(names.deep_view()), ..self@ }),
            self@.is_normalized() ==> track@.is_normalized(),
    {
        let mut trimmed_names: Vec<String> = Vec::new();
        let mut i: usize = 0;
        while i < names.len()
            invariant
                i <= names.len(),
                trimmed_names.len() == i,
                forall|k: int| 0 <= k < i ==> (#[trigger] trimmed_names@[k])@ == trimmed(names@[k]@),
            decreases names.len() - i,
        {
            trimmed_names.push(trim(names[i].as_str()));
            i += 1;
        }
        proof {
            assert(trimmed_names.deep_view() =~= all_trimmed(names.deep_view()));
            assert forall|k: int| 0 <= k < names.len() implies is_trimmed(
                #[trigger] all_trimmed(names.deep_view())[k],
            ) by {
                lemma_trimmed_is_trimmed(names.deep_view()[k]);
            }
        }
        Track { name: self.name, artists: trimmed_names, lyrics: self.lyrics }
    }

    /// `self` with `lyrics`, as they stand, in place of those it had.
    pub fn lyrics(self, lyrics: &str) -> (track: Track)
        ensures
            track@ == (TrackView { lyrics: lyrics@, ..self@ }),
            track@.same_track(self@),
    {
        Track { name: self.name, artists: self.artists, lyrics: String::from_str(lyrics) }
    }

    /// The artists on one line, separated by a comma and a space.
    pub fn artist_line(&self) -> (line: String)
        ensures
            line@ == artist_line(self@.artists),
    {
        join(&self.artists, ", ")
    }

    /// The block of text that shows the track: the heading in a box of
    /// dashes, an empty line, then the lyrics. Nothing is wrapped or cut.
    pub fn render(&self) -> (block: String)
        ensures
            block@ == self@.rendered(),
    {
        let line = self.artist_line();
        let mut border = String::from_str("+");
        // grown piece by piece, so that no sum of lengths is formed in machine arithmetic
        push_dashes(&mut border, byte_len(self.name.as_str()));
        push_dashes(&mut border, byte_len(line.as_str()));
        push_dashes(&mut border, 5);
        border.append("+");
        assert(border@ =~= self@.border());
        let mut block = String::new();
        block.append(border.as_str());
        block.append("\n");
        block.append("| ");
        block.append(self.name.as_str());
        block.append(" - ");
        block.append(line.as_str());
        block.append(" |");
        block.append("\n");
        block.append(border.as_str());
        block.append("\n\n");
        block.append(self.lyrics.as_str());
        assert(block@ =~= self@.rendered());
        block
    }
}

/// Being the same track is an equivalence, and it does not depend on the
/// lyrics: whatever lyrics two tracks are given, they stay the same track or
/// stay different ones.
pub proof fn lemma_same_track_ignores_lyrics(
    a: TrackView,
    b: TrackView,
    c: TrackView,
    lyrics_a: Seq<char>,
    lyrics_b: Seq<char>,
)
    ensures
        a.same_track(b) <==> a.title == b.title && artist_line(a.artists) == artist_line(
            b.artists,
        ),
        (TrackView { lyrics: lyrics_a, ..a }).same_track(TrackView { lyrics: lyrics_b, ..b })
            == a.same_track(b),
        a.same_track(a),
        a.same_track(b) == b.same_track(a),
        a.same_track(b) && b.same_track(c) ==> a.same_track(c),
{
}

/// Where the title and the artist line are ASCII, the border is exactly as
/// long as the heading it frames.
pub proof fn lemma_border_fits_heading(track: TrackView)
    requires
        is_ascii_chars(track.title),
        is_ascii_chars(artist_line(track.artists)),
    ensures
        track.border().len() == track.heading().len(),
        track.border().len() == track.title.len() + artist_line(track.artists).len() + 7,
{
    is_ascii_chars_encode_utf8(track.title);
    is_ascii_chars_encode_utf8(artist_line(track.artists));
    reveal_strlit("+");
    reveal_strlit("| ");
    reveal_strlit(" - ");
    reveal_strlit(" |");
}

} // verus!
