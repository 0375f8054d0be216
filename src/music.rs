//! The music monitor's reading: what the bar shows for the player's state and
//! current song.
use vstd::prelude::*;
use vstd::string::StringExecFns;

verus! {

/// What the music player is doing.
#[derive(Clone, Copy, Debug, PartialEq, Eq, Structural)]
pub enum PlayerState {
    Stop,
    Play,
    Pause,
}

/// The text for a song: `artist - title` when the song names an artist, with
/// `<no title>` standing in for a missing title; else the song's file.
pub open spec fn song_text_spec(
    artist: Option<Seq<char>>,
    title: Option<Seq<char>>,
    file: Seq<char>,
) -> Seq<char> {
    match artist {
        Some(a) => a + " - "@ + match title {
            Some(t) => t,
            None => "<no title>"@,
        },
        None => file,
    }
}

/// The color name for a player state: none while stopped, since nothing is shown.
pub open spec fn player_color_spec(state: PlayerState) -> Option<Seq<char>> {
    match state {
        PlayerState::Stop => None,
        PlayerState::Play => Some("green"@),
        PlayerState::Pause => Some("yellow"@),
    }
}

/// The text shown for a song.
pub fn song_text(artist: Option<&str>, title: Option<&str>, file: &str) -> (r: String)
    ensures
        r@ == song_text_spec(
            match artist {
                Some(a) => Some(a@),
                None => None,
            },
            match title {
                Some(t) => Some(t@),
                None => None,
            },
            file@,
        ),
{
    match artist {
        Some(a) => {
            let mut s = String::from_str(a);
            s.append(" - ");
            match title {
                Some(t) => s.append(t),
                None => s.append("<no title>"),
            }
            s
        },
        None => String::from_str(file),
    }
}

/// The name of the configured color for a player state, if anything is shown.
pub fn player_color(state: PlayerState) -> (r: Option<&'static str>)
    ensures
        match r {
            Some(c) => player_color_spec(state) == Some(c@),
            None => player_color_spec(state) is None,
        },
{
    match state {
        PlayerState::Stop => None,
        PlayerState::Play => Some("green"),
        PlayerState::Pause => Some("yellow"),
    }
}

} // verus!
