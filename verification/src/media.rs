//! The media-player widget: which MPRIS players are known, which one is
//! selected, and what the widget asks of the MPRIS service and of its cover
//! image in response to each message.
use vstd::prelude::*;

use crate::keyed::Keyed;
use crate::text::{
    chars_of, contains_chars, contains_seq, decimal_chars, decimal_int, pad_two, pad_two_chars,
    append_chars, string_of, trunc_div, lowercase_spec, to_lowercase, strip_prefix_chars,
    strip_prefix_spec,
};

verus! {

/// Playback state reported by a player.
#[derive(Clone, Copy, Debug, PartialEq, Eq, Structural)]
pub enum PlaybackStatus {
    Playing,
    Paused,
    Stopped,
}

impl Default for PlaybackStatus {
    fn default() -> (r: Self)
        ensures
            r == PlaybackStatus::Stopped,
    {
        PlaybackStatus::Stopped
    }
}

/// A transport button of the widget.
#[derive(Clone, Copy, Debug, PartialEq, Eq, Structural)]
pub enum Action {
    Previous,
    Next,
    PlayPause,
}

/// Track metadata reported by a player.
#[derive(Debug)]
pub struct Metadata {
    pub title: Option<String>,
    pub artist: Option<Vec<String>>,
    pub length: Option<i64>,
    pub art_url: Option<String>,
}

/// What a player reported. Volume and playback rate carry floating-point
/// values, which the caller keeps; only the kind of report reaches the model.
#[derive(Debug)]
pub enum Event {
    Volume,
    Position(i64),
    Metadata(Metadata),
    PlaybackStatus(PlaybackStatus),
    PlaybackRate,
}

/// A message of the widget.
#[derive(Debug)]
pub enum Input {
    /// The user picked a player in the menu.
    Select(String),
    /// A player reported something.
    Event(String, Event),
    /// The user pressed a transport button.
    Action(Action),
}

/// What the widget asks of its surroundings after a message.
#[derive(Debug)]
pub enum Effect {
    /// Add a menu entry for a newly seen player.
    AddMenuEntry(String),
    /// Show the cover image found at this location.
    LoadArt(String),
    /// Show the placeholder instead of a cover image.
    UnloadArt,
    /// Ask the player for its position and rate.
    RequestPositionAndRate(String),
    /// Ask the player for its metadata.
    RequestMetadata(String),
    /// Set the shown position (microseconds).
    SetPosition(i64),
    /// Keep the playback rate the player just reported.
    StoreRate(String),
    /// Send a transport command to the player.
    Control(Action, String),
    /// Show the position as zero.
    ResetPosition,
}

/// What the widget remembers of one player.
#[derive(Debug)]
pub struct Player {
    pub status: PlaybackStatus,
    pub title: Option<String>,
    pub artist: Option<String>,
    pub length: Option<i64>,
    pub art_url: Option<String>,
}

pub open spec fn opt_view(o: Option<String>) -> Option<Seq<char>> {
    match o {
        Some(s) => Some(s@),
        None => None,
    }
}

pub open spec fn strings_view(v: Vec<String>) -> Seq<Seq<char>> {
    v@.map_values(|s: String| s@)
}

pub struct PlayerView {
    pub status: PlaybackStatus,
    pub title: Option<Seq<char>>,
    pub artist: Option<Seq<char>>,
    pub length: Option<i64>,
    pub art_url: Option<Seq<char>>,
}

impl View for Player {
    type V = PlayerView;

    open spec fn view(&self) -> PlayerView {
        PlayerView {
            status: self.status,
            title: opt_view(self.title),
            artist: opt_view(self.artist),
            length: self.length,
            art_url: opt_view(self.art_url),
        }
    }
}

pub struct MetadataView {
    pub title: Option<Seq<char>>,
    pub artist: Option<Seq<Seq<char>>>,
    pub length: Option<i64>,
    pub art_url: Option<Seq<char>>,
}

impl View for Metadata {
    type V = MetadataView;

    open spec fn view(&self) -> MetadataView {
        MetadataView {
            title: opt_view(self.title),
            artist: match self.artist {
                Some(v) => Some(strings_view(v)),
                None => None,
            },
            length: self.length,
            art_url: opt_view(self.art_url),
        }
    }
}

pub enum EventView {
    Volume,
    Position(i64),
    Metadata(MetadataView),
    PlaybackStatus(PlaybackStatus),
    PlaybackRate,
}

impl View for Event {
    type V = EventView;

    open spec fn view(&self) -> EventView {
        match self {
            Event::Volume => EventView::Volume,
            Event::Position(p) => EventView::Position(*p),
            Event::Metadata(m) => EventView::Metadata(m@),
            Event::PlaybackStatus(s) => EventView::PlaybackStatus(*s),
            Event::PlaybackRate => EventView::PlaybackRate,
        }
    }
}

pub enum InputView {
    Select(Seq<char>),
    Event(Seq<char>, EventView),
    Action(Action),
}

impl View for Input {
    type V = InputView;

    open spec fn view(&self) -> InputView {
        match self {
            Input::Select(n) => InputView::Select(n@),
            Input::Event(n, e) => InputView::Event(n@, e@),
            Input::Action(a) => InputView::Action(*a),
        }
    }
}

pub enum EffectView {
    AddMenuEntry(Seq<char>),
    LoadArt(Seq<char>),
    UnloadArt,
    RequestPositionAndRate(Seq<char>),
    RequestMetadata(Seq<char>),
    SetPosition(i64),
    StoreRate(Seq<char>),
    Control(Action, Seq<char>),
    ResetPosition,
}

impl View for Effect {
    type V = EffectView;

    open spec fn view(&self) -> EffectView {
        match self {
            Effect::AddMenuEntry(n) => EffectView::AddMenuEntry(n@),
            Effect::LoadArt(u) => EffectView::LoadArt(u@),
            Effect::UnloadArt => EffectView::UnloadArt,
            Effect::RequestPositionAndRate(n) => EffectView::RequestPositionAndRate(n@),
            Effect::RequestMetadata(n) => EffectView::RequestMetadata(n@),
            Effect::SetPosition(p) => EffectView::SetPosition(*p),
            Effect::StoreRate(n) => EffectView::StoreRate(n@),
            Effect::Control(a, n) => EffectView::Control(*a, n@),
            Effect::ResetPosition => EffectView::ResetPosition,
        }
    }
}

pub open spec fn effects_view(v: Seq<Effect>) -> Seq<EffectView> {
    v.map_values(|e: Effect| e@)
}

/// The state of the widget, as the contracts see it.
pub struct ModelView {
    pub selected: Option<Seq<char>>,
    pub players: Map<Seq<char>, PlayerView>,
}

/// A player seen for the first time: stopped, with no metadata.
pub open spec fn new_player() -> PlayerView {
    PlayerView {
        status: PlaybackStatus::Stopped,
        title: None,
        artist: None,
        length: None,
        art_url: None,
    }
}

/// A player name that the widget prefers to select when it appears.
pub open spec fn is_music_player(name: Seq<char>) -> bool {
    contains_seq(lowercase_spec(name), "music"@)
}

/// The selected player, if it is known.
pub open spec fn selected_player(m: ModelView) -> Option<PlayerView> {
    match m.selected {
        Some(n) => if m.players.dom().contains(n) {
            Some(m.players[n])
        } else {
            None
        },
        None => None,
    }
}

/// What the widget asks for when its selection or the selected metadata changes:
/// the cover of the selected player (or the placeholder), then the selected
/// player's position and rate.
pub open spec fn reset_effects(m: ModelView) -> Seq<EffectView> {
    let art = match selected_player(m) {
        Some(p) => match p.art_url {
            Some(url) => EffectView::LoadArt(url),
            None => EffectView::UnloadArt,
        },
        None => EffectView::UnloadArt,
    };
    match m.selected {
        Some(n) => seq![art, EffectView::RequestPositionAndRate(n)],
        None => seq![art],
    }
}

/// The artist shown for reported metadata: the first listed artist.
pub open spec fn shown_artist(artist: Option<Seq<Seq<char>>>) -> Option<Seq<char>> {
    match artist {
        Some(v) => if v.len() > 0 {
            Some(v[0])
        } else {
            Some("no artist"@)
        },
        None => None,
    }
}

/// The widget's state and requests after a player named `name` first appears.
pub open spec fn register_player(m: ModelView, name: Seq<char>) -> (ModelView, Seq<EffectView>) {
    if m.players.dom().contains(name) {
        (m, seq![])
    } else {
        let m0 = ModelView { players: m.players.insert(name, new_player()), ..m };
        if m.selected is None || is_music_player(name) {
            let m1 = ModelView { selected: Some(name), ..m0 };
            (m1, seq![EffectView::AddMenuEntry(name)] + reset_effects(m1))
        } else {
            (m0, seq![EffectView::AddMenuEntry(name)])
        }
    }
}

/// One message of the widget: the new state and the requests it makes, in order.
pub open spec fn step(m: ModelView, input: InputView) -> (ModelView, Seq<EffectView>) {
    match input {
        InputView::Select(name) => (
            ModelView { selected: Some(name), ..m },
            seq![EffectView::RequestMetadata(name)],
        ),
        InputView::Action(a) => match m.selected {
            Some(n) => (m, seq![EffectView::Control(a, n)]),
            None => (m, seq![]),
        },
        InputView::Event(name, ev) => {
            let (m1, fx) = register_player(m, name);
            let p = m1.players[name];
            match ev {
                EventView::Volume => (m1, fx),
                EventView::Position(pos) => if m1.selected == Some(name) {
                    (m1, fx.push(EffectView::SetPosition(pos)))
                } else {
                    (m1, fx)
                },
                EventView::Metadata(md) => {
                    let p2 = PlayerView {
                        artist: shown_artist(md.artist),
                        title: md.title,
                        length: md.length,
                        art_url: md.art_url,
                        ..p
                    };
                    let m2 = ModelView { players: m1.players.insert(name, p2), ..m1 };
                    (m2, fx + reset_effects(m2))
                },
                EventView::PlaybackStatus(s) => (
                    ModelView {
                        players: m1.players.insert(name, PlayerView { status: s, ..p }),
                        ..m1
                    },
                    fx,
                ),
                EventView::PlaybackRate => (m1, fx.push(EffectView::StoreRate(name))),
            }
        },
    }
}

/// The hours, minutes and seconds shown for a time of `us` microseconds.
pub open spec fn time_fields(us: int) -> (int, int, int) {
    let time = trunc_div(us, 1000000);
    let hours = trunc_div(time, 3600);
    let minutes = trunc_div(time, 60) - hours * 60;
    let seconds = time - minutes * 60 - hours * 3600;
    (hours, minutes, seconds)
}

/// The label of a length or position given in microseconds: `mm:ss`, or
/// `hh:mm:ss` when it reaches an hour. Each field is written in decimal
/// (with a `-` for negative values) and padded with `0` to two characters.
pub open spec fn format_time_spec(us: int) -> Seq<char> {
    let (hours, minutes, seconds) = time_fields(us);
    if hours == 0 {
        pad_two(decimal_int(minutes)) + seq![':'] + pad_two(decimal_int(seconds))
    } else {
        pad_two(decimal_int(hours)) + seq![':'] + pad_two(decimal_int(minutes)) + seq![':']
            + pad_two(decimal_int(seconds))
    }
}

/// Formats a duration in microseconds as `mm:ss` or `hh:mm:ss`.
pub fn format_time(us: i64) -> (r: String)
    ensures
        r@ == format_time_spec(us as int),
{
    let time = us / 1000000;
    assert(-10_000_000_000_000 < time < 10_000_000_000_000);
    let hours = time / 3600;
    let minutes = time / 60 - hours * 60;
    let seconds = time - minutes * 60 - hours * 3600;
    let mut out: Vec<char> = Vec::new();
    if hours != 0 {
        append_chars(&mut out, &pad_two_chars(decimal_chars(hours)));
        out.push(':');
    }
    append_chars(&mut out, &pad_two_chars(decimal_chars(minutes)));
    out.push(':');
    append_chars(&mut out, &pad_two_chars(decimal_chars(seconds)));
    let r = string_of(&out);
    assert(r@ =~= format_time_spec(us as int));
    r
}

/// For a time that is not negative, the label shows whole hours, minutes
/// below sixty and seconds below sixty, which together make up the whole
/// seconds of the time.
pub proof fn law_time_label_fields(us: int)
    requires
        us >= 0,
    ensures
        ({
            let (h, m, s) = time_fields(us);
            &&& h >= 0
            &&& 0 <= m < 60
            &&& 0 <= s < 60
            &&& h * 3600 + m * 60 + s == us / 1000000
        }),
{
    let t = us / 1000000;
    vstd::arithmetic::div_mod::lemma_div_pos_is_pos(us, 1000000);
    let q = t / 60;
    vstd::arithmetic::div_mod::lemma_fundamental_div_mod(t, 60);
    vstd::arithmetic::div_mod::lemma_mod_bound(t, 60);
    vstd::arithmetic::div_mod::lemma_div_pos_is_pos(t, 60);
    vstd::arithmetic::div_mod::lemma_div_denominator(t, 60, 60);
    let h = q / 60;
    vstd::arithmetic::div_mod::lemma_fundamental_div_mod(q, 60);
    vstd::arithmetic::div_mod::lemma_mod_bound(q, 60);
    vstd::arithmetic::div_mod::lemma_div_pos_is_pos(q, 60);
    assert(t / 3600 == h);
    assert(trunc_div(us, 1000000) == t);
    assert(trunc_div(t, 3600) == h);
    assert(trunc_div(t, 60) == q);
}

/// The media widget's model.
pub struct Model {
    selected: Option<String>,
    players: Keyed<Player>,
}

impl View for Model {
    type V = ModelView;

    closed spec fn view(&self) -> ModelView {
        ModelView {
            selected: opt_view(self.selected),
            players: self.players.as_map().map_values(|p: Player| p@),
        }
    }
}

fn clone_opt(o: &Option<String>) -> (r: Option<String>)
    ensures
        opt_view(r) == opt_view(*o),
{
    match o {
        Some(s) => Some(s.clone()),
        None => None,
    }
}

impl Player {
    fn duplicate(&self) -> (r: Player)
        ensures
            r@ == self@,
    {
        Player {
            status: self.status,
            title: clone_opt(&self.title),
            artist: clone_opt(&self.artist),
            length: self.length,
            art_url: clone_opt(&self.art_url),
        }
    }
}

impl Model {
    pub closed spec fn wf(self) -> bool {
        self.players.wf()
    }

    /// A widget with no players and no selection.
    pub fn new() -> (r: Model)
        ensures
            r.wf(),
            r@ == (ModelView { selected: None, players: Map::empty() }),
    {
        let r = Model { selected: None, players: Keyed::new() };
        assert(r@.players =~= Map::<Seq<char>, PlayerView>::empty());
        r
    }

    fn selected_index(&self) -> (r: Option<usize>)
        requires
            self.wf(),
        ensures
            r matches Some(i) ==> i < self.players.pairs().len() && self@.selected == Some(
                self.players.key_at(i as int),
            ),
            r is None ==> selected_player(self@) is None,
    {
        match &self.selected {
            Some(name) => self.players.find(name.as_str()),
            None => None,
        }
    }

    proof fn lemma_selected(self, i: int)
        requires
            self.wf(),
            0 <= i < self.players.pairs().len(),
            self@.selected == Some(self.players.key_at(i)),
        ensures
            selected_player(self@) == Some(self.players.pairs()[i].1@),
    {
        self.players.lemma_entry(i);
    }

    /// The selected player's record, if the selection names a known player.
    pub fn player(&self) -> (r: Option<&Player>)
        requires
            self.wf(),
        ensures
            match r {
                Some(p) => selected_player(self@) == Some(p@),
                None => selected_player(self@) is None,
            },
    {
        match self.selected_index() {
            Some(i) => {
                proof {
                    self.lemma_selected(i as int);
                }
                Some(&self.players.entry(i).1)
            },
            None => None,
        }
    }

    /// Whether the selected player is playing.
    pub fn is_playing(&self) -> (r: bool)
        requires
            self.wf(),
        ensures
            r == (selected_player(self@) matches Some(p) && p.status == PlaybackStatus::Playing),
    {
        match self.player() {
            Some(p) => p.status == PlaybackStatus::Playing,
            None => false,
        }
    }

    /// The title shown: the selected player's title, or `no title`.
    pub fn title(&self) -> (r: String)
        requires
            self.wf(),
        ensures
            r@ == (match selected_player(self@) {
                Some(p) => match p.title {
                    Some(t) => t,
                    None => "no title"@,
                },
                None => "no title"@,
            }),
    {
        proof {
            reveal_strlit("no title");
        }
        match self.player() {
            Some(p) => match &p.title {
                Some(t) => t.clone(),
                None => "no title".to_owned(),
            },
            None => "no title".to_owned(),
        }
    }

    /// The artist shown: the selected player's artist, or `no artist`.
    pub fn artist(&self) -> (r: String)
        requires
            self.wf(),
        ensures
            r@ == (match selected_player(self@) {
                Some(p) => match p.artist {
                    Some(t) => t,
                    None => "no artist"@,
                },
                None => "no artist"@,
            }),
    {
        proof {
            reveal_strlit("no artist");
        }
        match self.player() {
            Some(p) => match &p.artist {
                Some(t) => t.clone(),
                None => "no artist".to_owned(),
            },
            None => "no artist".to_owned(),
        }
    }

    /// The length shown: the selected track's length formatted, or `00:00`.
    pub fn length(&self) -> (r: String)
        requires
            self.wf(),
        ensures
            r@ == (match selected_player(self@) {
                Some(p) => match p.length {
                    Some(l) => format_time_spec(l as int),
                    None => "00:00"@,
                },
                None => "00:00"@,
            }),
    {
        proof {
            reveal_strlit("00:00");
        }
        match self.player() {
            Some(p) => match p.length {
                Some(l) => format_time(l),
                None => "00:00".to_owned(),
            },
            None => "00:00".to_owned(),
        }
    }

    fn reset(&self, fx: &mut Vec<Effect>)
        requires
            self.wf(),
        ensures
            effects_view(final(fx)@) == effects_view(old(fx)@) + reset_effects(self@),
    {
        let ghost before = effects_view(fx@);
        match self.player() {
            Some(p) => match &p.art_url {
                Some(url) => fx.push(Effect::LoadArt(url.clone())),
                None => fx.push(Effect::UnloadArt),
            },
            None => fx.push(Effect::UnloadArt),
        }
        match &self.selected {
            Some(name) => fx.push(Effect::RequestPositionAndRate(name.clone())),
            None => {},
        }
        assert(effects_view(fx@) =~= before + reset_effects(self@));
    }
}


/// Inserting into a map and then mapping its values is mapping and then inserting.
proof fn lemma_map_values_insert(m: Map<Seq<char>, Player>, k: Seq<char>, v: Player)
    ensures
        m.insert(k, v).map_values(|p: Player| p@) == m.map_values(|p: Player| p@).insert(k, v@),
{
    assert(m.insert(k, v).map_values(|p: Player| p@) =~= m.map_values(|p: Player| p@).insert(k, v@));
}

fn shown_artist_exec(artist: Option<Vec<String>>) -> (r: Option<String>)
    ensures
        opt_view(r) == shown_artist(match artist {
            Some(v) => Some(strings_view(v)),
            None => None,
        }),
{
    proof {
        reveal_strlit("no artist");
    }
    match artist {
        Some(v) => {
            if v.len() > 0 {
                Some(v[0].clone())
            } else {
                Some("no artist".to_owned())
            }
        },
        None => None,
    }
}

impl Model {
    fn add_if_new(&mut self, name: &String, fx: &mut Vec<Effect>)
        requires
            old(self).wf(),
        ensures
            final(self).wf(),
            final(self)@ == register_player(old(self)@, name@).0,
            effects_view(final(fx)@) == effects_view(old(fx)@) + register_player(old(self)@, name@).1,
            final(self)@.players.dom().contains(name@),
    {
        let ghost m = self@;
        let ghost before = effects_view(fx@);
        if self.players.find(name.as_str()).is_none() {
            fx.push(Effect::AddMenuEntry(name.clone()));
            let fresh = Player {
                status: PlaybackStatus::Stopped,
                title: None,
                artist: None,
                length: None,
                art_url: None,
            };
            let ghost old_map = self.players.as_map();
            self.players.insert(name.clone(), fresh);
            proof {
                lemma_map_values_insert(old_map, name@, fresh);
                assert(fresh@ == new_player());
            }
            let lowered = to_lowercase(name.as_str());
            let music = contains_chars(&chars_of(lowered.as_str()), &chars_of("music"));
            if self.selected.is_none() || music {
                self.selected = Some(name.clone());
                self.reset(fx);
            }
            assert(effects_view(fx@) =~= before + register_player(m, name@).1);
        } else {
            assert(effects_view(fx@) =~= before + register_player(m, name@).1);
        }
    }

    /// Handles one message of the widget and returns what it asks for, in order.
    pub fn update(&mut self, input: Input) -> (fx: Vec<Effect>)
        requires
            old(self).wf(),
        ensures
            final(self).wf(),
            final(self)@ == step(old(self)@, input@).0,
            effects_view(fx@) == step(old(self)@, input@).1,
    {
        let ghost m = self@;
        let ghost iv = input@;
        let mut fx: Vec<Effect> = Vec::new();
        match input {
            Input::Select(name) => {
                fx.push(Effect::RequestMetadata(name.clone()));
                self.selected = Some(name);
                assert(self@.players == m.players);
            },
            Input::Action(a) => {
                match &self.selected {
                    Some(n) => fx.push(Effect::Control(a, n.clone())),
                    None => {},
                }
            },
            Input::Event(name, ev) => {
                self.add_if_new(&name, &mut fx);
                let ghost m1 = self@;
                let ghost fx1 = effects_view(fx@);
                let i = match self.players.find(name.as_str()) {
                    Some(i) => i,
                    None => {
                        assert(false);
                        return fx;
                    },
                };
                proof {
                    self.players.lemma_entry(i as int);
                }
                let is_selected = match &self.selected {
                    Some(s) => *s == name,
                    None => false,
                };
                match ev {
                    Event::Volume => {},
                    Event::Position(p) => {
                        if is_selected {
                            fx.push(Effect::SetPosition(p));
                        }
                        assert(effects_view(fx@) =~= step(m, iv).1);
                    },
                    Event::Metadata(md) => {
                        let status = self.players.entry(i).1.status;
                        let p2 = Player {
                            status: status,
                            artist: shown_artist_exec(md.artist),
                            title: md.title,
                            length: md.length,
                            art_url: md.art_url,
                        };
                        let ghost old_map = self.players.as_map();
                        let _ = self.players.replace_at(i, p2);
                        proof {
                            lemma_map_values_insert(old_map, name@, p2);
                        }
                        self.reset(&mut fx);
                        assert(self@.players =~= step(m, iv).0.players);
                        assert(effects_view(fx@) =~= step(m, iv).1);
                    },
                    Event::PlaybackStatus(st) => {
                        let mut p2 = self.players.entry(i).1.duplicate();
                        p2.status = st;
                        let ghost old_map = self.players.as_map();
                        let _ = self.players.replace_at(i, p2);
                        proof {
                            lemma_map_values_insert(old_map, name@, p2);
                        }
                        assert(self@.players =~= step(m, iv).0.players);
                    },
                    Event::PlaybackRate => {
                        fx.push(Effect::StoreRate(name.clone()));
                        assert(effects_view(fx@) =~= step(m, iv).1);
                    },
                }
            },
        }
        fx
    }
}

/// Selecting a player makes it the selection, leaves the known players as they
/// are, and asks that player for its metadata.
pub proof fn law_select_sets_selection(m: ModelView, name: Seq<char>)
    ensures
        step(m, InputView::Select(name)).0.selected == Some(name),
        step(m, InputView::Select(name)).0.players == m.players,
        step(m, InputView::Select(name)).1 == seq![EffectView::RequestMetadata(name)],
{
}

/// A transport button does nothing while no player is selected, and otherwise
/// sends exactly that command to the selected player; the state is unchanged.
pub proof fn law_action_targets_selection(m: ModelView, a: Action)
    ensures
        step(m, InputView::Action(a)).0 == m,
        m.selected is None ==> step(m, InputView::Action(a)).1 == Seq::<EffectView>::empty(),
        m.selected matches Some(n) ==> step(m, InputView::Action(a)).1 == seq![
            EffectView::Control(a, n),
        ],
{
}

/// Players are never forgotten: after any message the known players are the
/// ones known before, plus the reporting player for a player event.
pub proof fn law_players_only_grow(m: ModelView, input: InputView)
    ensures
        step(m, input).0.players.dom() == (match input {
            InputView::Event(name, _) => m.players.dom().insert(name),
            _ => m.players.dom(),
        }),
{
    match input {
        InputView::Event(name, ev) => {
            let m1 = register_player(m, name).0;
            assert(m1.players.dom() =~= m.players.dom().insert(name));
            assert(step(m, input).0.players.dom() =~= m.players.dom().insert(name));
        },
        _ => {},
    }
}

/// The names of the menu entries a list of effects adds, in order.
pub open spec fn added_entries(fx: Seq<EffectView>) -> Seq<Seq<char>>
    decreases fx.len(),
{
    if fx.len() == 0 {
        Seq::empty()
    } else {
        let rest = added_entries(fx.drop_first());
        match fx[0] {
            EffectView::AddMenuEntry(n) => seq![n] + rest,
            _ => rest,
        }
    }
}

/// The state after a run of messages, and the names of the menu entries added
/// on the way, in order.
pub open spec fn run(m: ModelView, inputs: Seq<InputView>) -> (ModelView, Seq<Seq<char>>)
    decreases inputs.len(),
{
    if inputs.len() == 0 {
        (m, Seq::empty())
    } else {
        let (m1, fx) = step(m, inputs[0]);
        let (m2, added) = run(m1, inputs.drop_first());
        (m2, added_entries(fx) + added)
    }
}

/// The players that report in `inputs` while not yet among `known`, in the
/// order of their first report.
pub open spec fn first_reports(inputs: Seq<InputView>, known: Set<Seq<char>>) -> Seq<Seq<char>>
    decreases inputs.len(),
{
    if inputs.len() == 0 {
        Seq::empty()
    } else {
        match inputs[0] {
            InputView::Event(n, _) => if known.contains(n) {
                first_reports(inputs.drop_first(), known)
            } else {
                seq![n] + first_reports(inputs.drop_first(), known.insert(n))
            },
            _ => first_reports(inputs.drop_first(), known),
        }
    }
}

proof fn lemma_added_concat(a: Seq<EffectView>, b: Seq<EffectView>)
    ensures
        added_entries(a + b) == added_entries(a) + added_entries(b),
    decreases a.len(),
{
    if a.len() == 0 {
        assert(a + b =~= b);
        assert(added_entries(a) + added_entries(b) =~= added_entries(b));
    } else {
        lemma_added_concat(a.drop_first(), b);
        assert((a + b).drop_first() =~= a.drop_first() + b);
        assert((a + b)[0] == a[0]);
        match a[0] {
            EffectView::AddMenuEntry(n) => {
                assert(seq![n] + (added_entries(a.drop_first()) + added_entries(b)) =~= (seq![n]
                    + added_entries(a.drop_first())) + added_entries(b));
            },
            _ => {},
        }
    }
}

proof fn lemma_single_entry(e: EffectView)
    ensures
        added_entries(seq![e]) == (match e {
            EffectView::AddMenuEntry(n) => seq![n],
            _ => Seq::<Seq<char>>::empty(),
        }),
{
    assert(seq![e].drop_first() =~= Seq::<EffectView>::empty());
    assert(added_entries(seq![e].drop_first()) == Seq::<Seq<char>>::empty());
    assert(seq![e][0] == e);
    match e {
        EffectView::AddMenuEntry(n) => {
            assert(seq![n] + Seq::<Seq<char>>::empty() =~= seq![n]);
        },
        _ => {},
    }
}

proof fn lemma_no_entries_on_reset(m: ModelView)
    ensures
        added_entries(reset_effects(m)) == Seq::<Seq<char>>::empty(),
{
    let art = reset_effects(m)[0];
    lemma_single_entry(art);
    match m.selected {
        Some(n) => {
            lemma_single_entry(EffectView::RequestPositionAndRate(n));
            assert(reset_effects(m) =~= seq![art] + seq![EffectView::RequestPositionAndRate(n)]);
            lemma_added_concat(seq![art], seq![EffectView::RequestPositionAndRate(n)]);
            assert(Seq::<Seq<char>>::empty() + Seq::<Seq<char>>::empty() =~= Seq::<Seq<char>>::empty());
        },
        None => {
            assert(reset_effects(m) =~= seq![art]);
        },
    }
}

/// The menu entries one message adds: one for a player reporting for the
/// first time, none otherwise.
proof fn lemma_step_entries(m: ModelView, input: InputView)
    ensures
        added_entries(step(m, input).1) == (match input {
            InputView::Event(n, _) => if m.players.dom().contains(n) {
                Seq::<Seq<char>>::empty()
            } else {
                seq![n]
            },
            _ => Seq::<Seq<char>>::empty(),
        }),
{
    let e0 = Seq::<EffectView>::empty();
    assert(added_entries(e0) == Seq::<Seq<char>>::empty());
    match input {
        InputView::Select(name) => {
            lemma_single_entry(EffectView::RequestMetadata(name));
        },
        InputView::Action(a) => {
            match m.selected {
                Some(n) => lemma_single_entry(EffectView::Control(a, n)),
                None => {},
            }
        },
        InputView::Event(name, ev) => {
            let (m1, fx) = register_player(m, name);
            let expected = if m.players.dom().contains(name) {
                Seq::<Seq<char>>::empty()
            } else {
                seq![name]
            };
            lemma_single_entry(EffectView::AddMenuEntry(name));
            if !m.players.dom().contains(name) {
                let m0 = ModelView { players: m.players.insert(name, new_player()), ..m };
                if m.selected is None || is_music_player(name) {
                    let m1b = ModelView { selected: Some(name), ..m0 };
                    lemma_no_entries_on_reset(m1b);
                    lemma_added_concat(seq![EffectView::AddMenuEntry(name)], reset_effects(m1b));
                    assert(seq![name] + Seq::<Seq<char>>::empty() =~= seq![name]);
                }
            }
            assert(added_entries(fx) == expected);
            let p = m1.players[name];
            match ev {
                EventView::Position(pos) => {
                    lemma_single_entry(EffectView::SetPosition(pos));
                    assert(fx.push(EffectView::SetPosition(pos)) =~= fx + seq![EffectView::SetPosition(pos)]);
                    lemma_added_concat(fx, seq![EffectView::SetPosition(pos)]);
                    assert(expected + Seq::<Seq<char>>::empty() =~= expected);
                },
                EventView::Metadata(md) => {
                    let p2 = PlayerView {
                        artist: shown_artist(md.artist),
                        title: md.title,
                        length: md.length,
                        art_url: md.art_url,
                        ..p
                    };
                    let m2 = ModelView { players: m1.players.insert(name, p2), ..m1 };
                    lemma_no_entries_on_reset(m2);
                    lemma_added_concat(fx, reset_effects(m2));
                    assert(expected + Seq::<Seq<char>>::empty() =~= expected);
                },
                EventView::PlaybackRate => {
                    lemma_single_entry(EffectView::StoreRate(name));
                    assert(fx.push(EffectView::StoreRate(name)) =~= fx + seq![EffectView::StoreRate(name)]);
                    lemma_added_concat(fx, seq![EffectView::StoreRate(name)]);
                    assert(expected + Seq::<Seq<char>>::empty() =~= expected);
                },
                _ => {},
            }
        },
    }
}

/// The player menu lists each known player once, in the order the players
/// first reported: from a menu that lists the known players once each, a run
/// of messages adds exactly the players that report for the first time, in
/// that order; no player is ever dropped; and the menu still lists the known
/// players once each.
pub proof fn law_menu_lists_players_once(m: ModelView, menu: Seq<Seq<char>>, inputs: Seq<InputView>)
    requires
        menu.no_duplicates(),
        menu.to_set() == m.players.dom(),
    ensures
        run(m, inputs).1 == first_reports(inputs, m.players.dom()),
        (menu + run(m, inputs).1).no_duplicates(),
        (menu + run(m, inputs).1).to_set() == run(m, inputs).0.players.dom(),
        m.players.dom().subset_of(run(m, inputs).0.players.dom()),
    decreases inputs.len(),
{
    if inputs.len() == 0 {
        assert(menu + Seq::<Seq<char>>::empty() =~= menu);
    } else {
        let input = inputs[0];
        let rest = inputs.drop_first();
        let (m1, fx) = step(m, input);
        lemma_step_entries(m, input);
        law_players_only_grow(m, input);
        let menu1 = menu + added_entries(fx);
        match input {
            InputView::Event(n, _) => {
                if m.players.dom().contains(n) {
                    assert(menu1 =~= menu);
                    assert(m.players.dom().insert(n) =~= m.players.dom());
                } else {
                    assert(menu1 =~= menu.push(n));
                    assert(!menu.contains(n));
                    menu.lemma_push_to_set_commute(n);
                    assert forall|i: int, j: int|
                        0 <= i < menu1.len() && 0 <= j < menu1.len() && i != j implies menu1[i]
                        != menu1[j] by {
                        if i < menu.len() && j < menu.len() {
                        } else if i == menu.len() {
                            assert(menu.contains(menu1[j]));
                        } else {
                            assert(menu.contains(menu1[i]));
                        }
                    }
                }
            },
            _ => {
                assert(menu1 =~= menu);
            },
        }
        law_menu_lists_players_once(m1, menu1, rest);
        let (m2, later) = run(m1, rest);
        assert(run(m, inputs).1 == added_entries(fx) + later);
        assert(menu + run(m, inputs).1 =~= menu1 + later);
        match input {
            InputView::Event(n, _) => {
                if !m.players.dom().contains(n) {
                    assert(seq![n] + later =~= added_entries(fx) + later);
                } else {
                    assert(Seq::<Seq<char>>::empty() + later =~= later);
                }
            },
            _ => {
                assert(Seq::<Seq<char>>::empty() + later =~= later);
            },
        }
    }
}

/// With nothing selected, a newly seen player becomes the selection and gets
/// a menu entry.
pub proof fn law_new_player_selected_when_none(m: ModelView, name: Seq<char>, ev: EventView)
    requires
        m.selected is None,
        !m.players.dom().contains(name),
    ensures
        step(m, InputView::Event(name, ev)).0.selected == Some(name),
        step(m, InputView::Event(name, ev)).1[0] == EffectView::AddMenuEntry(name),
{
}

/// A newly seen player whose name mentions music (in any case) takes the
/// selection even from another player.
pub proof fn law_music_player_takes_selection(m: ModelView, name: Seq<char>, ev: EventView)
    requires
        !m.players.dom().contains(name),
        is_music_player(name),
    ensures
        step(m, InputView::Event(name, ev)).0.selected == Some(name),
{
}

/// A player that is already known never takes the selection by reporting.
pub proof fn law_known_player_keeps_selection(m: ModelView, name: Seq<char>, ev: EventView)
    requires
        m.players.dom().contains(name),
    ensures
        step(m, InputView::Event(name, ev)).0.selected == m.selected,
{
}

/// A player event changes the record of the reporting player only.
pub proof fn law_event_touches_only_reporter(m: ModelView, name: Seq<char>, ev: EventView, other: Seq<char>)
    requires
        other != name,
        m.players.dom().contains(other),
    ensures
        step(m, InputView::Event(name, ev)).0.players[other] == m.players[other],
{
}

/// A metadata report sets the reporting player's title, artist (the first
/// one listed, or `no artist` for an empty list), length and cover, and leaves
/// its playback status as it was; a player seen for the first time is stopped.
pub proof fn law_metadata_keeps_status(m: ModelView, name: Seq<char>, md: MetadataView)
    ensures
        ({
            let p = step(m, InputView::Event(name, EventView::Metadata(md))).0.players[name];
            &&& p.status == (if m.players.dom().contains(name) {
                m.players[name].status
            } else {
                PlaybackStatus::Stopped
            })
            &&& p.title == md.title
            &&& p.artist == (match md.artist {
                Some(v) => Some(
                    if v.len() > 0 {
                        v[0]
                    } else {
                        "no artist"@
                    },
                ),
                None => None,
            })
            &&& p.length == md.length
            &&& p.art_url == md.art_url
        }),
{
}

/// A player that reported a playback status keeps it through a following
/// metadata report (a new track while playing still shows as playing).
pub proof fn law_status_survives_metadata(m: ModelView, name: Seq<char>, s: PlaybackStatus, md: MetadataView)
    ensures
        step(
            step(m, InputView::Event(name, EventView::PlaybackStatus(s))).0,
            InputView::Event(name, EventView::Metadata(md)),
        ).0.players[name].status == s,
{
    let m1 = step(m, InputView::Event(name, EventView::PlaybackStatus(s))).0;
    assert(m1.players.dom().contains(name));
    law_metadata_keeps_status(m1, name, md);
}

/// A reported playback status is what the player's record holds afterwards.
pub proof fn law_status_is_recorded(m: ModelView, name: Seq<char>, s: PlaybackStatus)
    ensures
        step(m, InputView::Event(name, EventView::PlaybackStatus(s))).0.players[name].status == s,
{
}

/// The label of a player's menu entry: its bus name without the
/// `org.mpris.MediaPlayer2.` prefix.
pub fn player_label(name: &str) -> (r: String)
    ensures
        r@ == (match strip_prefix_spec(name@, "org.mpris.MediaPlayer2."@) {
            Some(rest) => rest,
            None => name@,
        }),
{
    match strip_prefix_chars(&chars_of(name), &chars_of("org.mpris.MediaPlayer2.")) {
        Some(rest) => string_of(&rest),
        None => name.to_owned(),
    }
}

/// One message of the window crate's compact media widget, which has no
/// menu and no buttons: a newly seen player is selected only when its name
/// mentions music, metadata both updates the player and replaces the cover,
/// and a reset shows the position as zero. Position reports are not handled.
pub open spec fn compact_step(m: ModelView, name: Seq<char>, ev: EventView) -> (ModelView, Seq<EffectView>) {
    let (m1, fx) = if m.players.dom().contains(name) {
        (m, seq![])
    } else {
        let m0 = ModelView { players: m.players.insert(name, new_player()), ..m };
        if is_music_player(name) {
            (ModelView { selected: Some(name), ..m0 }, seq![EffectView::ResetPosition])
        } else {
            (m0, seq![])
        }
    };
    let p = m1.players[name];
    match ev {
        EventView::Metadata(md) => {
            let p2 = PlayerView { artist: shown_artist(md.artist), title: md.title, length: md.length, ..p };
            let art = match md.art_url {
                Some(url) => EffectView::LoadArt(url),
                None => EffectView::UnloadArt,
            };
            (
                ModelView { players: m1.players.insert(name, p2), ..m1 },
                fx + seq![art, EffectView::ResetPosition],
            )
        },
        EventView::PlaybackStatus(st) => (
            ModelView { players: m1.players.insert(name, PlayerView { status: st, ..p }), ..m1 },
            fx,
        ),
        EventView::PlaybackRate => (m1, fx.push(EffectView::StoreRate(name))),
        _ => (m1, fx),
    }
}

/// In the compact widget a metadata report sets the reporting player's
/// title, artist and length and leaves its playback status and cover as they
/// were; a player seen for the first time is stopped.
pub proof fn law_compact_metadata_keeps_status(m: ModelView, name: Seq<char>, md: MetadataView)
    ensures
        ({
            let p = compact_step(m, name, EventView::Metadata(md)).0.players[name];
            &&& p.status == (if m.players.dom().contains(name) {
                m.players[name].status
            } else {
                PlaybackStatus::Stopped
            })
            &&& p.art_url == (if m.players.dom().contains(name) {
                m.players[name].art_url
            } else {
                None
            })
            &&& p.title == md.title
            &&& p.artist == (match md.artist {
                Some(v) => Some(
                    if v.len() > 0 {
                        v[0]
                    } else {
                        "no artist"@
                    },
                ),
                None => None,
            })
            &&& p.length == md.length
        }),
{
}

impl Model {
    /// Handles a player report in the compact widget.
    pub fn update_compact(&mut self, name: String, ev: Event) -> (fx: Vec<Effect>)
        requires
            old(self).wf(),
        ensures
            final(self).wf(),
            final(self)@ == compact_step(old(self)@, name@, ev@).0,
            effects_view(fx@) == compact_step(old(self)@, name@, ev@).1,
    {
        let ghost m = self@;
        let ghost evv = ev@;
        let mut fx: Vec<Effect> = Vec::new();
        if self.players.find(name.as_str()).is_none() {
            let fresh = Player {
                status: PlaybackStatus::Stopped,
                title: None,
                artist: None,
                length: None,
                art_url: None,
            };
            let ghost old_map = self.players.as_map();
            self.players.insert(name.clone(), fresh);
            proof {
                lemma_map_values_insert(old_map, name@, fresh);
            }
            let lowered = to_lowercase(name.as_str());
            if contains_chars(&chars_of(lowered.as_str()), &chars_of("music")) {
                self.selected = Some(name.clone());
                fx.push(Effect::ResetPosition);
            }
        }
        let ghost m1 = self@;
        let i = match self.players.find(name.as_str()) {
            Some(i) => i,
            None => {
                assert(false);
                return fx;
            },
        };
        proof {
            self.players.lemma_entry(i as int);
        }
        match ev {
            Event::Metadata(md) => {
                let old_p = &self.players.entry(i).1;
                let p2 = Player {
                    status: old_p.status,
                    artist: shown_artist_exec(md.artist),
                    title: md.title,
                    length: md.length,
                    art_url: clone_opt(&old_p.art_url),
                };
                match md.art_url {
                    Some(url) => fx.push(Effect::LoadArt(url)),
                    None => fx.push(Effect::UnloadArt),
                }
                let ghost old_map = self.players.as_map();
                let _ = self.players.replace_at(i, p2);
                proof {
                    lemma_map_values_insert(old_map, name@, p2);
                }
                fx.push(Effect::ResetPosition);
                assert(self@.players =~= compact_step(m, name@, evv).0.players);
                assert(effects_view(fx@) =~= compact_step(m, name@, evv).1);
            },
            Event::PlaybackStatus(st) => {
                let mut p2 = self.players.entry(i).1.duplicate();
                p2.status = st;
                let ghost old_map = self.players.as_map();
                let _ = self.players.replace_at(i, p2);
                proof {
                    lemma_map_values_insert(old_map, name@, p2);
                }
                assert(self@.players =~= compact_step(m, name@, evv).0.players);
                assert(effects_view(fx@) =~= compact_step(m, name@, evv).1);
            },
            Event::PlaybackRate => {
                fx.push(Effect::StoreRate(name.clone()));
                assert(effects_view(fx@) =~= compact_step(m, name@, evv).1);
            },
            _ => {
                assert(effects_view(fx@) =~= compact_step(m, name@, evv).1);
            },
        }
        fx
    }

    /// Whether the compact widget is shown: the selected player exists and is
    /// not stopped.
    pub fn is_revealed(&self) -> (r: bool)
        requires
            self.wf(),
        ensures
            r == (selected_player(self@) matches Some(p) && p.status != PlaybackStatus::Stopped),
    {
        match self.player() {
            Some(p) => p.status != PlaybackStatus::Stopped,
            None => false,
        }
    }
}

/// In the compact widget a player is selected only when it is new and its
/// name mentions music; otherwise the selection stays.
pub proof fn law_compact_selection(m: ModelView, name: Seq<char>, ev: EventView)
    ensures
        compact_step(m, name, ev).0.selected == (if !m.players.dom().contains(name) && is_music_player(name) {
            Some(name)
        } else {
            m.selected
        }),
        compact_step(m, name, ev).0.players.dom() == m.players.dom().insert(name),
{
    let m1 = compact_step(m, name, ev).0;
    assert(m1.players.dom() =~= m.players.dom().insert(name));
}
} // verus!
