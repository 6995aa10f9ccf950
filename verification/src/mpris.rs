//! Media player bridging: the MPRIS2 vocabulary and the state kept per player.
//!
//! The bus itself is the caller's. This module knows which bus names are
//! players, which control methods exist, what a player's state is when the
//! player leaves a property out, and which players are being monitored.
//! A player's volume is a floating-point level that the caller keeps beside
//! the state held here.

use vstd::prelude::*;
use crate::error::ProtocolError;
use crate::keyed::StringMap;
use crate::text::{joined, str_eq, strip_prefix, stripped};

verus! {

/// MPRIS2 root interface.
pub const MPRIS_INTERFACE: &'static str = "org.mpris.MediaPlayer2";

/// MPRIS2 player interface.
pub const MPRIS_PLAYER_INTERFACE: &'static str = "org.mpris.MediaPlayer2.Player";

/// What every player's bus name starts with.
pub const MPRIS_BUS_PREFIX: &'static str = "org.mpris.MediaPlayer2.";

/// Standard MPRIS object path.
pub const MPRIS_OBJECT_PATH: &'static str = "/org/mpris/MediaPlayer2";

/// Playback status from MPRIS2.
#[derive(Debug, Clone, Copy, PartialEq, Eq, Structural)]
pub enum PlaybackStatus {
    Playing,
    Paused,
    Stopped,
}

impl PlaybackStatus {
    /// The status a property value stands for; anything unknown is `Stopped`.
    pub open spec fn of(s: Seq<char>) -> PlaybackStatus {
        if s == "Playing"@ {
            PlaybackStatus::Playing
        } else if s == "Paused"@ {
            PlaybackStatus::Paused
        } else {
            PlaybackStatus::Stopped
        }
    }

    pub fn from_str(s: &str) -> (r: PlaybackStatus)
        ensures
            r == PlaybackStatus::of(s@),
    {
        if str_eq(s, "Playing") {
            PlaybackStatus::Playing
        } else if str_eq(s, "Paused") {
            PlaybackStatus::Paused
        } else {
            PlaybackStatus::Stopped
        }
    }

    pub fn is_playing(&self) -> (r: bool)
        ensures
            r == (*self is Playing),
    {
        match self {
            PlaybackStatus::Playing => true,
            _ => false,
        }
    }
}

/// Loop status from MPRIS2.
#[derive(Debug, Clone, Copy, PartialEq, Eq, Structural)]
pub enum LoopStatus {
    /// No looping; written `None` on the bus.
    Off,
    Track,
    Playlist,
}

impl LoopStatus {
    /// The status a property value stands for; anything unknown is `Off`.
    pub open spec fn of(s: Seq<char>) -> LoopStatus {
        if s == "Track"@ {
            LoopStatus::Track
        } else if s == "Playlist"@ {
            LoopStatus::Playlist
        } else {
            LoopStatus::Off
        }
    }

    /// The property value of a status.
    pub open spec fn text(self) -> Seq<char> {
        match self {
            LoopStatus::Off => "None"@,
            LoopStatus::Track => "Track"@,
            LoopStatus::Playlist => "Playlist"@,
        }
    }

    pub fn from_str(s: &str) -> (r: LoopStatus)
        ensures
            r == LoopStatus::of(s@),
    {
        if str_eq(s, "Track") {
            LoopStatus::Track
        } else if str_eq(s, "Playlist") {
            LoopStatus::Playlist
        } else {
            LoopStatus::Off
        }
    }

    pub fn as_str(&self) -> (r: &'static str)
        ensures
            r@ == self.text(),
    {
        match self {
            LoopStatus::Off => "None",
            LoopStatus::Track => "Track",
            LoopStatus::Playlist => "Playlist",
        }
    }
}

/// A loop status written as a property value reads back as itself.
pub proof fn lemma_loop_status_round_trip(status: LoopStatus)
    ensures
        LoopStatus::of(status.text()) == status,
{
    reveal_strlit("None");
    reveal_strlit("Track");
    reveal_strlit("Playlist");
    assert("None"@.len() == 4 && "Track"@.len() == 5 && "Playlist"@.len() == 8);
}

/// The playback control methods a player offers.
#[derive(Debug, Clone, Copy, PartialEq, Eq, Structural)]
pub enum PlayerMethod {
    Play,
    Pause,
    PlayPause,
    Stop,
    Next,
    Previous,
}

impl PlayerMethod {
    /// The method a name stands for, if it is the name of one.
    pub open spec fn of(name: Seq<char>) -> Option<PlayerMethod> {
        if name == "Play"@ {
            Some(PlayerMethod::Play)
        } else if name == "Pause"@ {
            Some(PlayerMethod::Pause)
        } else if name == "PlayPause"@ {
            Some(PlayerMethod::PlayPause)
        } else if name == "Stop"@ {
            Some(PlayerMethod::Stop)
        } else if name == "Next"@ {
            Some(PlayerMethod::Next)
        } else if name == "Previous"@ {
            Some(PlayerMethod::Previous)
        } else {
            None
        }
    }

    /// The name a method is called by on the bus.
    pub open spec fn name(self) -> Seq<char> {
        match self {
            PlayerMethod::Play => "Play"@,
            PlayerMethod::Pause => "Pause"@,
            PlayerMethod::PlayPause => "PlayPause"@,
            PlayerMethod::Stop => "Stop"@,
            PlayerMethod::Next => "Next"@,
            PlayerMethod::Previous => "Previous"@,
        }
    }

    pub fn from_str(name: &str) -> (r: Option<PlayerMethod>)
        ensures
            r == PlayerMethod::of(name@),
    {
        if str_eq(name, "Play") {
            Some(PlayerMethod::Play)
        } else if str_eq(name, "Pause") {
            Some(PlayerMethod::Pause)
        } else if str_eq(name, "PlayPause") {
            Some(PlayerMethod::PlayPause)
        } else if str_eq(name, "Stop") {
            Some(PlayerMethod::Stop)
        } else if str_eq(name, "Next") {
            Some(PlayerMethod::Next)
        } else if str_eq(name, "Previous") {
            Some(PlayerMethod::Previous)
        } else {
            None
        }
    }

    pub fn as_str(&self) -> (r: &'static str)
        ensures
            r@ == self.name(),
    {
        match self {
            PlayerMethod::Play => "Play",
            PlayerMethod::Pause => "Pause",
            PlayerMethod::PlayPause => "PlayPause",
            PlayerMethod::Stop => "Stop",
            PlayerMethod::Next => "Next",
            PlayerMethod::Previous => "Previous",
        }
    }
}

/// Checks a control method by name before it is called on a player.
///
/// Only the six playback controls may be called; any other name is refused
/// with a message that names it.
pub fn call_player_method(method: &str) -> (r: Result<PlayerMethod, ProtocolError>)
    ensures
        match PlayerMethod::of(method@) {
            Some(m) => r == Ok::<PlayerMethod, ProtocolError>(m),
            None => r matches Err(e) && e is Plugin && e.message() == "Unknown method: "@
                + method@,
        },
{
    match PlayerMethod::from_str(method) {
        Some(m) => Ok(m),
        None => Err(ProtocolError::Plugin(joined("Unknown method: ", method))),
    }
}

/// The bus name of a player.
pub fn player_bus_name(player: &str) -> (r: String)
    ensures
        r@ == MPRIS_BUS_PREFIX@ + player@,
{
    joined(MPRIS_BUS_PREFIX, player)
}

/// The player a bus name belongs to, if it is a player's name.
pub open spec fn player_of(bus_name: Seq<char>) -> Option<Seq<char>> {
    stripped(bus_name, MPRIS_BUS_PREFIX@)
}

/// The players among the first `n` bus names, in order.
pub open spec fn players_among(names: Seq<Seq<char>>, n: int) -> Seq<Seq<char>>
    decreases n,
{
    if n <= 0 {
        Seq::empty()
    } else {
        match player_of(names[n - 1]) {
            Some(player) => players_among(names, n - 1).push(player),
            None => players_among(names, n - 1),
        }
    }
}

/// Picks the players out of the names on the bus: every name that starts
/// with the player prefix, without the prefix, in the order given.
pub fn discover_players(names: &Vec<String>) -> (players: Vec<String>)
    ensures
        players@.map_values(|p: String| p@) == players_among(
            names@.map_values(|n: String| n@),
            names.len() as int,
        ),
{
    let ghost all = names@.map_values(|n: String| n@);
    let mut players: Vec<String> = Vec::new();
    let mut i: usize = 0;
    assert(players@.map_values(|p: String| p@) =~= Seq::<Seq<char>>::empty());
    while i < names.len()
        invariant
            i <= names.len(),
            all == names@.map_values(|n: String| n@),
            players@.map_values(|p: String| p@) == players_among(all, i as int),
        decreases names.len() - i,
    {
        assert(all[i as int] == names[i as int]@);
        match strip_prefix(names[i].as_str(), MPRIS_BUS_PREFIX) {
            Some(player) => {
                let ghost before = players@;
                players.push(player);
                assert(players@.map_values(|p: String| p@) =~= before.map_values(
                    |p: String| p@,
                ).push(player@));
            },
            None => {},
        }
        i += 1;
    }
    players
}

/// A player's bus name leads back to the player.
pub proof fn lemma_bus_name_round_trip(player: Seq<char>)
    ensures
        player_of(MPRIS_BUS_PREFIX@ + player) == Some(player),
{
    let name = MPRIS_BUS_PREFIX@ + player;
    assert(name.subrange(0, MPRIS_BUS_PREFIX@.len() as int) =~= MPRIS_BUS_PREFIX@);
    assert(name.skip(MPRIS_BUS_PREFIX@.len() as int) =~= player);
}

pub open spec fn opt_text(s: Option<String>) -> Option<Seq<char>> {
    match s {
        Some(s) => Some(s@),
        None => None,
    }
}

/// Media player metadata.
#[derive(Debug, Clone, PartialEq, Eq)]
pub struct PlayerMetadata {
    pub artist: Option<String>,
    pub title: Option<String>,
    pub album: Option<String>,
    pub album_art_url: Option<String>,
    /// Track length in microseconds.
    pub length: i64,
}

/// What a [`PlayerMetadata`] means.
pub struct PlayerMetadataView {
    pub artist: Option<Seq<char>>,
    pub title: Option<Seq<char>>,
    pub album: Option<Seq<char>>,
    pub album_art_url: Option<Seq<char>>,
    pub length: i64,
}

impl View for PlayerMetadata {
    type V = PlayerMetadataView;

    open spec fn view(&self) -> PlayerMetadataView {
        PlayerMetadataView {
            artist: opt_text(self.artist),
            title: opt_text(self.title),
            album: opt_text(self.album),
            album_art_url: opt_text(self.album_art_url),
            length: self.length,
        }
    }
}

impl PlayerMetadata {
    /// Metadata that says nothing.
    pub open spec fn empty() -> PlayerMetadataView {
        PlayerMetadataView { artist: None, title: None, album: None, album_art_url: None, length: 0 }
    }

    /// The metadata a player reported, with a length of zero where it
    /// reported none.
    pub fn from_properties(
        artist: Option<String>,
        title: Option<String>,
        album: Option<String>,
        album_art_url: Option<String>,
        length: Option<i64>,
    ) -> (metadata: PlayerMetadata)
        ensures
            metadata@ == (PlayerMetadataView {
                artist: opt_text(artist),
                title: opt_text(title),
                album: opt_text(album),
                album_art_url: opt_text(album_art_url),
                length: match length {
                    Some(l) => l,
                    None => 0,
                },
            }),
    {
        let length = match length {
            Some(l) => l,
            None => 0,
        };
        PlayerMetadata { artist, title, album, album_art_url, length }
    }

    /// A second value with the same fields.
    pub fn duplicate(&self) -> (r: PlayerMetadata)
        ensures
            r@ == self@,
    {
        PlayerMetadata {
            artist: copy_text(&self.artist),
            title: copy_text(&self.title),
            album: copy_text(&self.album),
            album_art_url: copy_text(&self.album_art_url),
            length: self.length,
        }
    }
}

/// A value of a player's metadata dictionary, as far as it is looked at:
/// a text, a 64-bit integer, or anything else.
#[derive(Debug, Clone, PartialEq, Eq)]
pub enum MetadataValue {
    Text(String),
    Integer(i64),
    Other,
}

/// The text a dictionary holds under a key. A missing key, and a value that
/// is not a text, count alike as nothing.
pub open spec fn text_at(dict: Map<Seq<char>, MetadataValue>, key: Seq<char>) -> Option<
    Seq<char>,
> {
    if dict.contains_key(key) {
        match dict[key] {
            MetadataValue::Text(s) => Some(s@),
            _ => None,
        }
    } else {
        None
    }
}

/// The integer a dictionary holds under a key, with zero for a missing key
/// and for a value that is not an integer.
pub open spec fn integer_at(dict: Map<Seq<char>, MetadataValue>, key: Seq<char>) -> i64 {
    if dict.contains_key(key) {
        match dict[key] {
            MetadataValue::Integer(i) => i,
            _ => 0,
        }
    } else {
        0
    }
}

/// The metadata a player's dictionary stands for, by the keys of the media
/// player interface.
pub open spec fn metadata_of(dict: Map<Seq<char>, MetadataValue>) -> PlayerMetadataView {
    PlayerMetadataView {
        artist: text_at(dict, "xesam:artist"@),
        title: text_at(dict, "xesam:title"@),
        album: text_at(dict, "xesam:album"@),
        album_art_url: text_at(dict, "mpris:artUrl"@),
        length: integer_at(dict, "mpris:length"@),
    }
}

fn text_in(dict: &StringMap<MetadataValue>, key: &str) -> (r: Option<String>)
    ensures
        opt_text(r) == text_at(dict@, key@),
{
    match dict.get(key) {
        Some(MetadataValue::Text(s)) => Some(s.clone()),
        _ => None,
    }
}

/// Reads a player's metadata out of its dictionary.
pub fn query_metadata(dict: &StringMap<MetadataValue>) -> (m: PlayerMetadata)
    ensures
        m@ == metadata_of(dict@),
{
    let length = match dict.get("mpris:length") {
        Some(MetadataValue::Integer(i)) => *i,
        _ => 0,
    };
    PlayerMetadata {
        artist: text_in(dict, "xesam:artist"),
        title: text_in(dict, "xesam:title"),
        album: text_in(dict, "xesam:album"),
        album_art_url: text_in(dict, "mpris:artUrl"),
        length,
    }
}

fn copy_text(s: &Option<String>) -> (r: Option<String>)
    ensures
        opt_text(r) == opt_text(*s),
{
    match s {
        Some(s) => Some(s.clone()),
        None => None,
    }
}

impl Default for PlayerMetadata {
    fn default() -> (metadata: PlayerMetadata)
        ensures
            metadata@ == PlayerMetadata::empty(),
    {
        PlayerMetadata { artist: None, title: None, album: None, album_art_url: None, length: 0 }
    }
}

/// What a player reported of itself; `None` for a property it did not report.
#[derive(Debug, Clone, PartialEq, Eq)]
pub struct PlayerProperties {
    pub playback_status: Option<String>,
    pub loop_status: Option<String>,
    pub identity: Option<String>,
    pub position: Option<i64>,
    pub shuffle: Option<bool>,
    pub can_play: Option<bool>,
    pub can_pause: Option<bool>,
    pub can_go_next: Option<bool>,
    pub can_go_previous: Option<bool>,
    pub can_seek: Option<bool>,
}

/// Player state from MPRIS2.
#[derive(Debug, Clone, PartialEq, Eq)]
pub struct PlayerState {
    pub name: String,
    pub identity: String,
    pub playback_status: PlaybackStatus,
    /// Position in microseconds.
    pub position: i64,
    pub loop_status: LoopStatus,
    pub shuffle: bool,
    pub can_play: bool,
    pub can_pause: bool,
    pub can_go_next: bool,
    pub can_go_previous: bool,
    pub can_seek: bool,
    pub metadata: PlayerMetadata,
}

/// What a [`PlayerState`] means.
pub struct PlayerStateView {
    pub name: Seq<char>,
    pub identity: Seq<char>,
    pub playback_status: PlaybackStatus,
    pub position: i64,
    pub loop_status: LoopStatus,
    pub shuffle: bool,
    pub can_play: bool,
    pub can_pause: bool,
    pub can_go_next: bool,
    pub can_go_previous: bool,
    pub can_seek: bool,
    pub metadata: PlayerMetadataView,
}

impl View for PlayerState {
    type V = PlayerStateView;

    open spec fn view(&self) -> PlayerStateView {
        PlayerStateView {
            name: self.name@,
            identity: self.identity@,
            playback_status: self.playback_status,
            position: self.position,
            loop_status: self.loop_status,
            shuffle: self.shuffle,
            can_play: self.can_play,
            can_pause: self.can_pause,
            can_go_next: self.can_go_next,
            can_go_previous: self.can_go_previous,
            can_seek: self.can_seek,
            metadata: self.metadata@,
        }
    }
}

pub open spec fn or_bool(value: Option<bool>, default: bool) -> bool {
    match value {
        Some(b) => b,
        None => default,
    }
}

/// The state of `player` given what it reported: a player that leaves a
/// property out is stopped, at position zero, not looping, not shuffling,
/// known by its own name, and able to do everything.
pub open spec fn state_of(
    player: Seq<char>,
    properties: PlayerProperties,
    metadata: PlayerMetadataView,
) -> PlayerStateView {
    PlayerStateView {
        name: player,
        identity: match properties.identity {
            Some(identity) => identity@,
            None => player,
        },
        playback_status: match properties.playback_status {
            Some(status) => PlaybackStatus::of(status@),
            None => PlaybackStatus::Stopped,
        },
        position: match properties.position {
            Some(position) => position,
            None => 0,
        },
        loop_status: match properties.loop_status {
            Some(status) => LoopStatus::of(status@),
            None => LoopStatus::Off,
        },
        shuffle: or_bool(properties.shuffle, false),
        can_play: or_bool(properties.can_play, true),
        can_pause: or_bool(properties.can_pause, true),
        can_go_next: or_bool(properties.can_go_next, true),
        can_go_previous: or_bool(properties.can_go_previous, true),
        can_seek: or_bool(properties.can_seek, true),
        metadata,
    }
}

fn bool_or(value: Option<bool>, default: bool) -> (r: bool)
    ensures
        r == or_bool(value, default),
{
    match value {
        Some(b) => b,
        None => default,
    }
}

impl PlayerState {
    /// The state of a player nothing is known about.
    pub open spec fn unknown() -> PlayerStateView {
        PlayerStateView {
            name: Seq::empty(),
            identity: Seq::empty(),
            playback_status: PlaybackStatus::Stopped,
            position: 0,
            loop_status: LoopStatus::Off,
            shuffle: false,
            can_play: true,
            can_pause: true,
            can_go_next: true,
            can_go_previous: true,
            can_seek: true,
            metadata: PlayerMetadata::empty(),
        }
    }

    /// Builds a player's state from what the player reported.
    pub fn query_player_state(
        player: &str,
        properties: PlayerProperties,
        metadata: PlayerMetadata,
    ) -> (state: PlayerState)
        ensures
            state@ == state_of(player@, properties, metadata@),
    {
        let identity = match properties.identity {
            Some(identity) => identity,
            None => player.to_owned(),
        };
        let playback_status = match properties.playback_status {
            Some(status) => PlaybackStatus::from_str(status.as_str()),
            None => PlaybackStatus::Stopped,
        };
        let loop_status = match properties.loop_status {
            Some(status) => LoopStatus::from_str(status.as_str()),
            None => LoopStatus::Off,
        };
        let position = match properties.position {
            Some(position) => position,
            None => 0,
        };
        PlayerState {
            name: player.to_owned(),
            identity,
            playback_status,
            position,
            loop_status,
            shuffle: bool_or(properties.shuffle, false),
            can_play: bool_or(properties.can_play, true),
            can_pause: bool_or(properties.can_pause, true),
            can_go_next: bool_or(properties.can_go_next, true),
            can_go_previous: bool_or(properties.can_go_previous, true),
            can_seek: bool_or(properties.can_seek, true),
            metadata,
        }
    }

    /// A second value with the same fields.
    pub fn duplicate(&self) -> (r: PlayerState)
        ensures
            r@ == self@,
    {
        PlayerState {
            name: self.name.clone(),
            identity: self.identity.clone(),
            playback_status: self.playback_status,
            position: self.position,
            loop_status: self.loop_status,
            shuffle: self.shuffle,
            can_play: self.can_play,
            can_pause: self.can_pause,
            can_go_next: self.can_go_next,
            can_go_previous: self.can_go_previous,
            can_seek: self.can_seek,
            metadata: self.metadata.duplicate(),
        }
    }
}

impl Default for PlayerState {
    fn default() -> (state: PlayerState)
        ensures
            state@ == PlayerState::unknown(),
    {
        PlayerState {
            name: String::new(),
            identity: String::new(),
            playback_status: PlaybackStatus::Stopped,
            position: 0,
            loop_status: LoopStatus::Off,
            shuffle: false,
            can_play: true,
            can_pause: true,
            can_go_next: true,
            can_go_previous: true,
            can_seek: true,
            metadata: PlayerMetadata::default(),
        }
    }
}

/// The players being monitored, each with its last known state.
#[derive(Debug)]
pub struct MonitoredPlayers {
    players: StringMap<PlayerState>,
}

impl MonitoredPlayers {
    /// Player name to last known state.
    pub closed spec fn states(&self) -> Map<Seq<char>, PlayerState> {
        self.players@
    }

    /// The monitored players, in the order in which monitoring started.
    pub closed spec fn names(&self) -> Seq<Seq<char>> {
        self.players.order()
    }

    /// Nothing is monitored yet.
    pub fn new() -> (r: MonitoredPlayers)
        ensures
            r.states() == Map::<Seq<char>, PlayerState>::empty(),
            r.names() == Seq::<Seq<char>>::empty(),
    {
        MonitoredPlayers { players: StringMap::new() }
    }

    /// Get list of active players.
    pub fn get_player_list(&self) -> (list: Vec<String>)
        ensures
            list@.map_values(|p: String| p@) == self.names(),
    {
        let mut list: Vec<String> = Vec::new();
        let mut i: usize = 0;
        let n = self.players.len();
        while i < n
            invariant
                n == self.players.order().len(),
                i <= n,
                list.len() == i,
                forall|k: int| 0 <= k < i ==> list[k]@ == self.players.order()[k],
            decreases n - i,
        {
            list.push(self.players.key_at(i).to_owned());
            i += 1;
        }
        assert(list@.map_values(|p: String| p@) =~= self.names());
        list
    }

    /// Get player state.
    pub fn get_player_state(&self, player: &str) -> (r: Option<PlayerState>)
        ensures
            match r {
                Some(state) => self.states().contains_key(player@) && state@
                    == self.states()[player@]@,
                None => !self.states().contains_key(player@),
            },
    {
        match self.players.get(player) {
            Some(state) => Some(state.duplicate()),
            None => None,
        }
    }

    /// Starts monitoring a player, or refreshes its state, with the state
    /// just queried.
    pub fn start_monitoring(&mut self, player: &str, state: PlayerState)
        ensures
            final(self).states() == old(self).states().insert(player@, state),
            final(self).names() == if old(self).states().contains_key(player@) {
                old(self).names()
            } else {
                old(self).names().push(player@)
            },
    {
        let mut players = StringMap::new();
        core::mem::swap(&mut self.players, &mut players);
        players.insert(player, state);
        self.players = players;
    }

    /// Stops monitoring a player.
    pub fn stop_monitoring(&mut self, player: &str)
        ensures
            final(self).states() == old(self).states().remove(player@),
            final(self).names() == crate::keyed::without(old(self).names(), player@),
    {
        let mut players = StringMap::new();
        core::mem::swap(&mut self.players, &mut players);
        let _ = players.remove(player);
        self.players = players;
    }
}

} // verus!
