//! A single game lobby: the players gathered for one game, and the protocol that starts it.
//!
//! Players join a lobby while it is `Waiting`. The player that fills it up starts the game: the
//! lobby becomes `Starting` and asks every player to confirm readiness. If everybody confirms,
//! the game starts; otherwise the players that did not confirm are removed and the lobby waits
//! again. Sending messages and awaiting the confirmations is the caller's work: the lobby says
//! what to send, to whom, and whom to wait for.
use vstd::prelude::*;

use dashmap::DashMap;

use crate::config::GameStateConfig;
use crate::game::game_lobby_status::GameLobbyStatus;
use crate::model::client_message::ClientMessageData;
use crate::model::lobby_update;
use crate::model::server_message::ServerMessageData;
use crate::model::{ClientMessage, ServerMessage};
use crate::packet::{is_player_ready, make_lobby_update, spec_is_player_ready};
use crate::tables::{
    lists_entries, player_table, player_table_contains, player_table_entries, player_table_insert,
    player_table_len, player_table_new, player_table_remove,
};

verus! {

/// The abstract state of a lobby.
pub struct LobbyModel {
    /// The settings the lobby was created with.
    pub config: GameStateConfig,
    /// The players in the lobby: each nick with the handle of its player.
    pub players: Map<Seq<char>, u64>,
    /// Where the lobby is in its life cycle.
    pub status: GameLobbyStatus,
}

/// The outcome of adding a player to a lobby. The variants that reject the player hand its
/// handle back.
#[derive(Debug, PartialEq, Eq, Structural)]
pub enum AddPlayerResult {
    /// The lobby is not waiting for players any more.
    GameRunning(u64),
    /// Another player of the lobby already uses the nick.
    NickTaken(u64),
    /// The player joined; the lobby still waits for more players.
    Success,
    /// The player joined and filled the lobby up: the lobby now starts its game.
    GameStarted,
}

/// A message to send to some of a lobby's players.
#[derive(Debug)]
pub struct LobbyBroadcast {
    /// The message.
    pub message: ServerMessage,
    /// The handles of the players it goes to.
    pub recipients: Vec<u64>,
}

/// Work that a lobby hands to its caller after a change of state.
#[derive(Debug)]
pub enum LobbyAction {
    /// Nothing to do.
    Nothing,
    /// Send a message to players.
    Broadcast(LobbyBroadcast),
    /// Wait for every listed player (nick and handle) to confirm readiness, then report the
    /// replies to [`GameLobby::finish_start`].
    AwaitReadiness(Vec<(String, u64)>),
}

/// What ending a readiness check hands to the caller.
#[derive(Debug)]
pub struct ReadinessVerdict {
    /// The lobby update to send, and to whom.
    pub broadcast: LobbyBroadcast,
    /// The players that left the lobby because their readiness was not confirmed, nick and
    /// handle.
    pub removed: Vec<(String, u64)>,
}

/// How awaiting one player's confirmation ended.
#[derive(Debug)]
pub enum ReadinessOutcome {
    /// The server was cancelled while waiting.
    Cancelled,
    /// The player's stream yielded this, within the timeout (`None`: the stream was closed).
    Received(Option<ClientMessage>),
    /// The timeout ran out.
    TimedOut,
}

/// The lobby a configuration starts out as: waiting, with no player.
pub open spec fn empty_lobby(config: GameStateConfig) -> LobbyModel {
    LobbyModel { config, players: Map::empty(), status: GameLobbyStatus::Waiting }
}

/// The outcome of adding the player with handle `player` under `nick` to the lobby `lobby`, and
/// the lobby afterwards.
pub open spec fn add_player_spec(lobby: LobbyModel, nick: Seq<char>, player: u64) -> (
    AddPlayerResult,
    LobbyModel,
) {
    if lobby.status != GameLobbyStatus::Waiting {
        (AddPlayerResult::GameRunning(player), lobby)
    } else if lobby.players.contains_key(nick) {
        (AddPlayerResult::NickTaken(player), lobby)
    } else {
        let players = lobby.players.insert(nick, player);
        if players.len() < lobby.config.number_of_players_in_game_lobby {
            (AddPlayerResult::Success, LobbyModel { players, ..lobby })
        } else {
            (
                AddPlayerResult::GameStarted,
                LobbyModel { players, status: GameLobbyStatus::Starting, ..lobby },
            )
        }
    }
}

/// Whether `nicks` and `ids` list every player of `players` once, nick `nicks[i]` with handle
/// `ids[i]`.
pub open spec fn lists_players(nicks: Seq<Seq<char>>, ids: Seq<u64>, players: Map<Seq<char>, u64>) -> bool {
    &&& nicks.len() == players.len()
    &&& ids.len() == nicks.len()
    &&& forall|i: int|
        0 <= i < nicks.len() ==> #[trigger] players.contains_key(nicks[i]) && players[nicks[i]]
            == ids[i]
    &&& forall|i: int, j: int|
        0 <= i < nicks.len() && 0 <= j < nicks.len() && i != j ==> #[trigger] nicks[i]
            != #[trigger] nicks[j]
    &&& forall|k: Seq<char>|
        #[trigger] players.contains_key(k) ==> exists|i: int|
            0 <= i < nicks.len() && #[trigger] nicks[i] == k
}

/// Whether `broadcast` sends to every player of `players` a lobby update with status `code` that
/// lists all of them.
pub open spec fn broadcasts(
    broadcast: LobbyBroadcast,
    code: lobby_update::StatusCode,
    players: Map<Seq<char>, u64>,
) -> bool {
    match broadcast.message.server_message_data {
        Some(ServerMessageData::LobbyUpdate(update)) => {
            &&& update.status_code == lobby_update::status_code_value(code)
            &&& lists_players(
                update.players@.map_values(|nick: String| nick@),
                broadcast.recipients@,
                players,
            )
        },
        _ => false,
    }
}

/// Whether `action` is the work that adding a player with result `result` leaves, when the lobby
/// is `lobby` afterwards.
pub open spec fn add_player_action(result: AddPlayerResult, lobby: LobbyModel, action: LobbyAction) -> bool {
    match result {
        AddPlayerResult::Success => action matches LobbyAction::Broadcast(broadcast)
            && broadcasts(broadcast, lobby_update::StatusCode::Waiting, lobby.players),
        AddPlayerResult::GameStarted => action matches LobbyAction::AwaitReadiness(entries)
            && lists_entries(entries@, lobby.players),
        _ => action is Nothing,
    }
}

/// Whether a reply to the request for readiness disqualifies its player: no message came, or
/// the message was something else than a confirmation.
pub open spec fn is_unready(message: Option<ClientMessage>) -> bool {
    match message {
        Some(message) => !spec_is_player_ready(message),
        None => true,
    }
}

/// Whether a reply to the request for readiness is a confirmation: a message came, and it is a
/// `PlayerReady`.
pub open spec fn is_ready_reply(message: Option<ClientMessage>) -> bool {
    message matches Some(m) && m.client_message_data matches Some(ClientMessageData::PlayerReady(_))
}

/// Whether some reply of `replies` under `nick` is not a confirmation.
pub open spec fn has_unconfirming_reply(
    replies: Seq<(String, Option<ClientMessage>)>,
    nick: Seq<char>,
) -> bool {
    exists|i: int| 0 <= i < replies.len() && #[trigger] replies[i].0@ == nick && !is_ready_reply(replies[i].1)
}

/// A reply disqualifies its player exactly when it is not a confirmation: when no message came,
/// or when the message is anything but a `PlayerReady` (a welcome, a leave message, an empty
/// message).
pub proof fn lemma_unready_is_not_ready(message: Option<ClientMessage>)
    ensures
        is_unready(message) <==> !is_ready_reply(message),
        is_unready(None),
        message matches Some(m) ==> (is_unready(message) <==> !(m.client_message_data matches Some(
            ClientMessageData::PlayerReady(_),
        ))),
{
}

/// The nicks of the replies that disqualify their players, in the order of the replies.
pub open spec fn unready_nicks(replies: Seq<(String, Option<ClientMessage>)>) -> Seq<Seq<char>>
    decreases replies.len(),
{
    if replies.len() == 0 {
        Seq::empty()
    } else {
        let earlier = unready_nicks(replies.drop_last());
        if is_unready(replies.last().1) {
            earlier.push(replies.last().0@)
        } else {
            earlier
        }
    }
}

/// Whether some reply of `replies` under `nick` disqualifies its player.
pub open spec fn disqualifies(replies: Seq<(String, Option<ClientMessage>)>, nick: Seq<char>) -> bool {
    exists|i: int| 0 <= i < replies.len() && #[trigger] replies[i].0@ == nick && is_unready(replies[i].1)
}

/// Whether some reply of `replies` carries the nick `nick`.
pub open spec fn replied(replies: Seq<(String, Option<ClientMessage>)>, nick: Seq<char>) -> bool {
    exists|i: int| 0 <= i < replies.len() && #[trigger] replies[i].0@ == nick
}

/// Whether `replies` confirm the readiness of the player with nick `nick`: some reply carries the
/// nick, and none of the replies that carry it disqualifies the player.
pub open spec fn confirmed(replies: Seq<(String, Option<ClientMessage>)>, nick: Seq<char>) -> bool {
    replied(replies, nick) && !disqualifies(replies, nick)
}

/// The nicks of the players of `players` whose readiness `replies` do not confirm: those that
/// sent nothing in time, those that sent something else than a confirmation, and those no reply
/// speaks of at all.
pub open spec fn unconfirmed_nicks(
    players: Map<Seq<char>, u64>,
    replies: Seq<(String, Option<ClientMessage>)>,
) -> Set<Seq<char>> {
    players.dom().filter(|nick: Seq<char>| !confirmed(replies, nick))
}

/// The sequence of readiness replies a vector holds, if there is one.
pub open spec fn replies_view(replies: Option<Vec<(String, Option<ClientMessage>)>>) -> Option<
    Seq<(String, Option<ClientMessage>)>,
> {
    match replies {
        Some(replies) => Some(replies@),
        None => None,
    }
}

/// The lobby after its readiness check ended with `replies` (`None`: the check itself failed).
///
/// The game starts only if the replies confirm the readiness of every player of the lobby.
/// Otherwise every player whose readiness is not confirmed leaves, and the lobby waits again.
pub open spec fn finish_start_spec(
    lobby: LobbyModel,
    replies: Option<Seq<(String, Option<ClientMessage>)>>,
) -> LobbyModel {
    match replies {
        None => lobby,
        Some(replies) => {
            let unconfirmed = unconfirmed_nicks(lobby.players, replies);
            if unconfirmed == Set::<Seq<char>>::empty() {
                LobbyModel { status: GameLobbyStatus::Started, ..lobby }
            } else {
                LobbyModel {
                    players: lobby.players.remove_keys(unconfirmed),
                    status: GameLobbyStatus::Waiting,
                    ..lobby
                }
            }
        },
    }
}

/// Whether `verdict` is what ending the readiness check of `before` with `replies` hands back,
/// when the lobby is `after` afterwards: the players told the lobby's new status, and the
/// players that left.
pub open spec fn finish_start_verdict(
    before: LobbyModel,
    replies: Option<Seq<(String, Option<ClientMessage>)>>,
    after: LobbyModel,
    verdict: Option<ReadinessVerdict>,
) -> bool {
    match replies {
        None => verdict is None,
        Some(replies) => verdict matches Some(verdict) && {
            let unconfirmed = unconfirmed_nicks(before.players, replies);
            &&& broadcasts(
                verdict.broadcast,
                if unconfirmed == Set::<Seq<char>>::empty() {
                    lobby_update::StatusCode::GameReady
                } else {
                    lobby_update::StatusCode::Waiting
                },
                after.players,
            )
            &&& lists_entries(verdict.removed@, before.players.restrict(unconfirmed))
        },
    }
}

proof fn lemma_take_one_more_to_set<A>(s: Seq<A>, i: int)
    requires
        0 <= i < s.len(),
    ensures
        s.take(i + 1).to_set() == s.take(i).to_set().insert(s[i]),
{
    let shorter = s.take(i);
    let longer = s.take(i + 1);
    assert(longer =~= shorter.push(s[i]));
    assert forall|a: A| longer.contains(a) <==> shorter.contains(a) || a == s[i] by {
        if shorter.contains(a) {
            let k = choose|k: int| 0 <= k < shorter.len() && shorter[k] == a;
            assert(longer[k] == a);
        }
        if a == s[i] {
            assert(longer[i] == a);
        }
        if longer.contains(a) {
            let k = choose|k: int| 0 <= k < longer.len() && longer[k] == a;
            if k < i {
                assert(shorter[k] == a);
            }
        }
    }
    assert(longer.to_set() =~= shorter.to_set().insert(s[i]));
}

/// Returns the message a player's readiness reply amounts to: the message received in time, or
/// none at all.
pub fn readiness_reply(outcome: ReadinessOutcome) -> (message: Option<ClientMessage>)
    ensures
        message == (match outcome {
            ReadinessOutcome::Received(received) => received,
            _ => None,
        }),
{
    match outcome {
        ReadinessOutcome::Cancelled => None,
        ReadinessOutcome::Received(Some(message)) => Some(message),
        ReadinessOutcome::Received(None) => None,
        ReadinessOutcome::TimedOut => None,
    }
}

/// Returns the nicks whose readiness replies disqualify their players, in the order of the
/// replies: those that sent nothing in time and those that sent something else than a
/// confirmation.
pub fn players_to_remove(replies: &Vec<(String, Option<ClientMessage>)>) -> (nicks: Vec<String>)
    ensures
        nicks@.map_values(|nick: String| nick@) == unready_nicks(replies@),
        forall|i: int|
            0 <= i < replies@.len() && !is_ready_reply(#[trigger] replies@[i].1) ==> nicks@.map_values(
                |nick: String| nick@,
            ).contains(replies@[i].0@),
        forall|j: int| 0 <= j < nicks@.len() ==> has_unconfirming_reply(replies@, #[trigger] nicks@[j]@),
{
    let mut nicks: Vec<String> = Vec::new();
    let mut i: usize = 0;
    while i < replies.len()
        invariant
            i <= replies.len(),
            nicks@.map_values(|nick: String| nick@) == unready_nicks(replies@.take(i as int)),
        decreases replies.len() - i,
    {
        assert(replies@.take(i + 1).drop_last() =~= replies@.take(i as int));
        let unready = match &replies[i].1 {
            Some(message) => !is_player_ready(message),
            None => true,
        };
        if unready {
            nicks.push(replies[i].0.clone());
        }
        assert(nicks@.map_values(|nick: String| nick@) =~= unready_nicks(
            replies@.take(i + 1),
        ));
        i = i + 1;
    }
    assert(replies@.take(replies.len() as int) =~= replies@);
    proof {
        lemma_unready_nicks_are_unready_replies(replies@);
        let listed = nicks@.map_values(|nick: String| nick@);
        assert forall|j: int| 0 <= j < nicks@.len() implies has_unconfirming_reply(
            replies@,
            #[trigger] nicks@[j]@,
        ) by {
            assert(listed[j] == nicks@[j]@);
        }
    }
    nicks
}

/// The nicks a readiness check disqualifies are those of the replies that are not
/// confirmations: each such reply's nick is among them, and each of them is the nick of such a
/// reply.
proof fn lemma_unready_nicks_are_unready_replies(replies: Seq<(String, Option<ClientMessage>)>)
    ensures
        forall|i: int|
            0 <= i < replies.len() && !is_ready_reply(#[trigger] replies[i].1) ==> unready_nicks(
                replies,
            ).contains(replies[i].0@),
        forall|j: int|
            0 <= j < unready_nicks(replies).len() ==> has_unconfirming_reply(
                replies,
                #[trigger] unready_nicks(replies)[j],
            ),
{
    lemma_unready_nicks_exact(replies);
    assert forall|i: int|
        0 <= i < replies.len() && !is_ready_reply(#[trigger] replies[i].1) implies unready_nicks(
            replies,
        ).contains(replies[i].0@) by {
        lemma_unready_is_not_ready(replies[i].1);
    }
    assert forall|j: int|
        0 <= j < unready_nicks(replies).len() implies has_unconfirming_reply(
            replies,
            #[trigger] unready_nicks(replies)[j],
        ) by {
        assert(disqualifies(replies, unready_nicks(replies)[j]));
        let k = choose|k: int|
            0 <= k < replies.len() && #[trigger] replies[k].0@ == unready_nicks(replies)[j]
                && is_unready(replies[k].1);
        lemma_unready_is_not_ready(replies[k].1);
    }
}

/// Returns whether some reply carries the nick `nick`.
fn has_reply(replies: &Vec<(String, Option<ClientMessage>)>, nick: &String) -> (found: bool)
    ensures
        found == replied(replies@, nick@),
{
    let mut i: usize = 0;
    while i < replies.len()
        invariant
            i <= replies.len(),
            forall|j: int| 0 <= j < i ==> #[trigger] replies@[j].0@ != nick@,
        decreases replies.len() - i,
    {
        if replies[i].0 == *nick {
            return true;
        }
        i = i + 1;
    }
    false
}

/// Returns whether `nicks` holds the nick `nick`.
fn holds_nick(nicks: &Vec<String>, nick: &String) -> (found: bool)
    ensures
        found == nicks@.map_values(|n: String| n@).contains(nick@),
{
    let ghost listed = nicks@.map_values(|n: String| n@);
    let mut i: usize = 0;
    while i < nicks.len()
        invariant
            i <= nicks.len(),
            listed == nicks@.map_values(|n: String| n@),
            forall|j: int| 0 <= j < i ==> #[trigger] listed[j] != nick@,
        decreases nicks.len() - i,
    {
        if nicks[i] == *nick {
            assert(listed[i as int] == nick@);
            return true;
        }
        i = i + 1;
    }
    false
}

/// A single game lobby and the players gathered in it.
#[derive(Debug)]
pub struct GameLobby {
    config: GameStateConfig,
    players: DashMap<String, u64>,
    game_lobby_status: GameLobbyStatus,
}

impl View for GameLobby {
    type V = LobbyModel;

    open spec fn view(&self) -> LobbyModel {
        self.model()
    }
}

impl GameLobby {
    /// A lobby holds finitely many players.
    #[verifier::type_invariant]
    spec fn players_are_finite(&self) -> bool {
        player_table(self.players).dom().finite()
    }

    /// The abstract state of the lobby.
    pub closed spec fn model(&self) -> LobbyModel {
        LobbyModel {
            config: self.config,
            players: player_table(self.players),
            status: self.game_lobby_status,
        }
    }

    /// Creates an empty lobby that waits for players.
    pub fn new(config: GameStateConfig) -> (lobby: Self)
        ensures
            lobby@ == empty_lobby(config),
    {
        GameLobby {
            config,
            players: player_table_new(),
            game_lobby_status: GameLobbyStatus::Waiting,
        }
    }

    /// Adds the player with handle `player` under `nick`.
    ///
    /// A lobby that does not wait for players rejects it (`GameRunning`), and so does a lobby in
    /// which the nick is taken (`NickTaken`); both hand the handle back and change nothing.
    /// Otherwise the player joins. If the lobby is still short of players, everybody in it is
    /// told who is waiting (`Success`). If the player fills the lobby up, the lobby starts: it
    /// becomes `Starting` and asks for every player's readiness (`GameStarted`).
    pub fn add_player(&mut self, nick: String, player: u64) -> (outcome: (AddPlayerResult, LobbyAction))
        ensures
            final(self)@.players.dom().finite(),
            (outcome.0, final(self)@) == add_player_spec(old(self)@, nick@, player),
            add_player_action(outcome.0, final(self)@, outcome.1),
    {
        proof {
            use_type_invariant(&*self);
        }
        if self.game_lobby_status != GameLobbyStatus::Waiting {
            return (AddPlayerResult::GameRunning(player), LobbyAction::Nothing);
        }
        if player_table_contains(&self.players, &nick) {
            return (AddPlayerResult::NickTaken(player), LobbyAction::Nothing);
        }
        let mut players = self.take_players();
        player_table_insert(&mut players, nick, player);
        let count = player_table_len(&players);
        self.players = players;
        if count < self.config.number_of_players_in_game_lobby {
            let broadcast = self.broadcast_players(lobby_update::StatusCode::Waiting);
            (AddPlayerResult::Success, LobbyAction::Broadcast(broadcast))
        } else {
            let action = self.start();
            (AddPlayerResult::GameStarted, action)
        }
    }

    /// Moves the player table out of the lobby, leaving an empty table in its place, so that the
    /// table can change while the lobby keeps holding finitely many players.
    fn take_players(&mut self) -> (players: DashMap<String, u64>)
        ensures
            player_table(players) == old(self)@.players,
            final(self)@ == (LobbyModel { players: Map::empty(), ..old(self)@ }),
    {
        let mut players = player_table_new();
        std::mem::swap(&mut players, &mut self.players);
        players
    }

    /// Starts the game regardless of the number of players.
    ///
    /// A lobby that is not `Waiting` stays as it is. Otherwise it becomes `Starting` and asks for
    /// the readiness of every player in it.
    pub fn start(&mut self) -> (action: LobbyAction)
        ensures
            final(self)@.players.dom().finite(),
            old(self)@.status != GameLobbyStatus::Waiting ==> final(self)@ == old(self)@
                && action is Nothing,
            old(self)@.status == GameLobbyStatus::Waiting ==> final(self)@ == (LobbyModel {
                status: GameLobbyStatus::Starting,
                ..old(self)@
            }) && (action matches LobbyAction::AwaitReadiness(entries) && lists_entries(
                entries@,
                old(self)@.players,
            )),
    {
        proof {
            use_type_invariant(&*self);
        }
        if self.game_lobby_status != GameLobbyStatus::Waiting {
            return LobbyAction::Nothing;
        }
        self.game_lobby_status = GameLobbyStatus::Starting;
        LobbyAction::AwaitReadiness(player_table_entries(&self.players))
    }

    /// Returns every player of the lobby whose readiness `replies` do not confirm, nick and
    /// handle.
    fn unconfirmed_players(&self, replies: &Vec<(String, Option<ClientMessage>)>) -> (removed: Vec<
        (String, u64),
    >)
        ensures
            lists_entries(
                removed@,
                self@.players.restrict(unconfirmed_nicks(self@.players, replies@)),
            ),
            removed@.map_values(|entry: (String, u64)| entry.0@).to_set() == unconfirmed_nicks(
                self@.players,
                replies@,
            ),
    {
        let unready = players_to_remove(replies);
        proof {
            lemma_unready_nicks_exact(replies@);
        }
        let entries = player_table_entries(&self.players);
        let ghost table = self@.players;
        let ghost out = unconfirmed_nicks(table, replies@);
        let mut removed: Vec<(String, u64)> = Vec::new();
        let mut i: usize = 0;
        while i < entries.len()
            invariant
                i <= entries.len(),
                table == self@.players,
                out == unconfirmed_nicks(table, replies@),
                lists_entries(entries@, table),
                unready@.map_values(|nick: String| nick@) == unready_nicks(replies@),
                forall|r: int|
                    0 <= r < replies@.len() && is_unready(#[trigger] replies@[r].1)
                        ==> unready_nicks(replies@).contains(replies@[r].0@),
                forall|u: int|
                    0 <= u < unready_nicks(replies@).len() ==> disqualifies(
                        replies@,
                        #[trigger] unready_nicks(replies@)[u],
                    ),
                forall|j: int|
                    0 <= j < removed@.len() ==> exists|k: int|
                        0 <= k < i && #[trigger] entries@[k] == #[trigger] removed@[j],
                forall|j: int| 0 <= j < removed@.len() ==> out.contains(#[trigger] removed@[j].0@),
                forall|k: int|
                    0 <= k < i && out.contains(#[trigger] entries@[k].0@) ==> exists|j: int|
                        0 <= j < removed@.len() && #[trigger] removed@[j] == entries@[k],
                forall|a: int, b: int|
                    0 <= a < removed@.len() && 0 <= b < removed@.len() && a != b
                        ==> #[trigger] removed@[a].0@ != #[trigger] removed@[b].0@,
            decreases entries.len() - i,
        {
            let nick = &entries[i].0;
            let answered = has_reply(replies, nick);
            let refused = holds_nick(&unready, nick);
            proof {
                let k = nick@;
                if refused {
                    let u = choose|u: int|
                        0 <= u < unready_nicks(replies@).len() && unready_nicks(replies@)[u] == k;
                    assert(disqualifies(replies@, unready_nicks(replies@)[u]));
                }
                if disqualifies(replies@, k) {
                    let r = choose|r: int|
                        0 <= r < replies@.len() && #[trigger] replies@[r].0@ == k && is_unready(
                            replies@[r].1,
                        );
                    assert(unready_nicks(replies@).contains(replies@[r].0@));
                }
                assert(refused == disqualifies(replies@, k));
                assert(table.contains_key(k));
                assert((answered && !refused) == confirmed(replies@, k));
                assert(out.contains(k) == !confirmed(replies@, k));
            }
            let ghost before = removed@;
            if !(answered && !refused) {
                let entry = (entries[i].0.clone(), entries[i].1);
                proof {
                    assert forall|j: int| 0 <= j < removed@.len() implies #[trigger] removed@[j].0@
                        != entry.0@ by {
                        let k = choose|k: int| 0 <= k < i && #[trigger] entries@[k] == removed@[j];
                        assert(entries@[k].0@ != entries@[i as int].0@);
                    }
                }
                removed.push(entry);
                proof {
                    assert(entries@[i as int] == removed@[removed@.len() - 1]);
                }
            }
            proof {
                assert forall|k: int|
                    0 <= k < i + 1 && out.contains(#[trigger] entries@[k].0@) implies exists|j: int|
                    0 <= j < removed@.len() && #[trigger] removed@[j] == entries@[k] by {
                    if k < i {
                        let j = choose|j: int| 0 <= j < before.len() && #[trigger] before[j] == entries@[k];
                        assert(removed@[j] == before[j]);
                    } else {
                        assert(removed@[removed@.len() - 1] == entries@[k]);
                    }
                }
            }
            i = i + 1;
        }
        proof {
            let gone = removed@.map_values(|entry: (String, u64)| entry.0@);
            assert forall|k: Seq<char>| gone.to_set().contains(k) <==> out.contains(k) by {
                if gone.to_set().contains(k) {
                    let j = choose|j: int| 0 <= j < gone.len() && gone[j] == k;
                    assert(out.contains(removed@[j].0@));
                }
                if out.contains(k) {
                    assert(table.contains_key(k));
                    let e = choose|e: int| 0 <= e < entries@.len() && #[trigger] entries@[e].0@ == k;
                    assert(out.contains(entries@[e].0@));
                    let j = choose|j: int| 0 <= j < removed@.len() && #[trigger] removed@[j] == entries@[e];
                    assert(gone[j] == k);
                }
            }
            assert(gone.to_set() =~= out);
            assert(gone.no_duplicates()) by {
                assert forall|a: int, b: int| 0 <= a < gone.len() && 0 <= b < gone.len() && a != b
                    implies gone[a] != gone[b] by {
                    assert(removed@[a].0@ != removed@[b].0@);
                }
            }
            gone.unique_seq_to_set();
            let kept = table.restrict(out);
            assert(kept.dom() =~= out);
            assert forall|k: Seq<char>| #[trigger] kept.contains_key(k) implies exists|j: int|
                0 <= j < removed@.len() && #[trigger] removed@[j].0@ == k by {
                assert(gone.to_set().contains(k));
                let j = choose|j: int| 0 <= j < gone.len() && gone[j] == k;
                assert(removed@[j].0@ == k);
            }
            assert forall|j: int| 0 <= j < removed@.len() implies #[trigger] kept.contains_key(
                removed@[j].0@,
            ) && kept[removed@[j].0@] == removed@[j].1 by {
                let k = choose|k: int| 0 <= k < entries@.len() && #[trigger] entries@[k] == removed@[j];
                assert(table.contains_key(entries@[k].0@));
            }
        }
        removed
    }

    /// Ends the readiness check that [`GameLobby::start`] asked for, given the replies of the
    /// players (`None`: the check itself failed, which leaves the lobby as it is).
    ///
    /// If the replies confirm the readiness of every player, the game starts and everybody is
    /// told so. Otherwise every player whose readiness is not confirmed leaves: one that sent
    /// nothing in time, one that sent something else than a confirmation, and one that no reply
    /// speaks of. The others are told that the lobby waits again, and it does. The players that
    /// left are handed back.
    pub fn finish_start(&mut self, replies: Option<Vec<(String, Option<ClientMessage>)>>) -> (verdict:
        Option<ReadinessVerdict>)
        ensures
            final(self)@.players.dom().finite(),
            final(self)@ == finish_start_spec(old(self)@, replies_view(replies)),
            finish_start_verdict(old(self)@, replies_view(replies), final(self)@, verdict),
            old(self)@.status != GameLobbyStatus::Started && final(self)@.status
                == GameLobbyStatus::Started ==> (replies_view(replies) matches Some(r) && forall|
                k: Seq<char>,
            |
                #[trigger] old(self)@.players.contains_key(k) ==> exists|i: int|
                    0 <= i < r.len() && #[trigger] r[i].0@ == k && is_ready_reply(r[i].1)),
    {
        proof {
            use_type_invariant(&*self);
        }
        match replies {
            None => None,
            Some(replies) => {
                proof {
                    lemma_finish_start_outcome(self@, replies@);
                    if self@.status != GameLobbyStatus::Started {
                        lemma_started_only_after_readiness(self@, Seq::empty(), 0);
                    }
                }
                let removed = self.unconfirmed_players(&replies);
                let ghost table = player_table(self.players);
                let ghost out = unconfirmed_nicks(self@.players, replies@);
                let ghost gone = removed@.map_values(|entry: (String, u64)| entry.0@);
                if removed.len() == 0 {
                    assert(out =~= Set::<Seq<char>>::empty()) by {
                        assert(gone =~= Seq::<Seq<char>>::empty());
                        assert(gone.to_set() =~= Set::<Seq<char>>::empty());
                    }
                    self.game_lobby_status = GameLobbyStatus::Started;
                    let broadcast = self.broadcast_players(lobby_update::StatusCode::GameReady);
                    Some(ReadinessVerdict { broadcast, removed })
                } else {
                    assert(out.contains(gone[0]));
                    let mut players = self.take_players();
                    let mut i: usize = 0;
                    while i < removed.len()
                        invariant
                            i <= removed.len(),
                            gone == removed@.map_values(|entry: (String, u64)| entry.0@),
                            player_table(players) == table.remove_keys(
                                gone.take(i as int).to_set(),
                            ),
                        decreases removed.len() - i,
                    {
                        player_table_remove(&mut players, &removed[i].0);
                        proof {
                            lemma_take_one_more_to_set(gone, i as int);
                        }
                        assert(player_table(players) =~= table.remove_keys(
                            gone.take(i + 1).to_set(),
                        ));
                        i = i + 1;
                    }
                    assert(gone.take(removed.len() as int) =~= gone);
                    proof {
                        assert(player_table(players).dom().subset_of(table.dom()));
                        vstd::set_lib::lemma_len_subset(player_table(players).dom(), table.dom());
                    }
                    self.players = players;
                    let broadcast = self.broadcast_players(lobby_update::StatusCode::Waiting);
                    self.game_lobby_status = GameLobbyStatus::Waiting;
                    Some(ReadinessVerdict { broadcast, removed })
                }
            },
        }
    }

    /// Returns the message that tells every player of the lobby its status `status_code` and who
    /// is in it, with the handles of those players.
    pub fn broadcast_players(&self, status_code: lobby_update::StatusCode) -> (broadcast:
        LobbyBroadcast)
        ensures
            self@.players.dom().finite(),
            broadcasts(broadcast, status_code, self@.players),
    {
        proof {
            use_type_invariant(self);
        }
        let entries = player_table_entries(&self.players);
        let mut nicks: Vec<String> = Vec::new();
        let mut recipients: Vec<u64> = Vec::new();
        let mut i: usize = 0;
        while i < entries.len()
            invariant
                i <= entries.len(),
                nicks.len() == i,
                recipients.len() == i,
                forall|j: int| 0 <= j < i ==> #[trigger] nicks@[j]@ == entries@[j].0@,
                forall|j: int| 0 <= j < i ==> #[trigger] recipients@[j] == entries@[j].1,
            decreases entries.len() - i,
        {
            nicks.push(entries[i].0.clone());
            recipients.push(entries[i].1);
            i = i + 1;
        }
        let ghost listed = nicks@.map_values(|nick: String| nick@);
        proof {
            let table = player_table(self.players);
            assert forall|j: int| 0 <= j < listed.len() implies listed[j] == entries@[j].0@ by {}
            assert forall|k: Seq<char>| #[trigger] table.contains_key(k) implies exists|j: int|
                0 <= j < listed.len() && #[trigger] listed[j] == k by {
                let j = choose|j: int| 0 <= j < entries@.len() && #[trigger] entries@[j].0@ == k;
                assert(listed[j] == k);
            }
            assert forall|a: int, b: int|
                0 <= a < listed.len() && 0 <= b < listed.len() && a != b implies #[trigger] listed[a]
                != #[trigger] listed[b] by {
                assert(entries@[a].0@ != entries@[b].0@);
            }
            assert forall|j: int| 0 <= j < listed.len() implies #[trigger] table.contains_key(
                listed[j],
            ) && table[listed[j]] == recipients@[j] by {
                assert(table.contains_key(entries@[j].0@));
            }
        }
        let message = make_lobby_update(status_code, nicks);
        LobbyBroadcast { message, recipients }
    }

    /// Returns the lobby's status.
    pub fn get_state(&self) -> (status: GameLobbyStatus)
        ensures
            self@.players.dom().finite(),
            status == self@.status,
    {
        proof {
            use_type_invariant(self);
        }
        self.game_lobby_status
    }

    /// Overrides the lobby's status.
    pub fn set_game_lobby_state(&mut self, state: GameLobbyStatus)
        ensures
            final(self)@.players.dom().finite(),
            final(self)@ == (LobbyModel { status: state, ..old(self)@ }),
    {
        proof {
            use_type_invariant(&*self);
        }
        self.game_lobby_status = state;
    }

    /// Returns the number of players in the lobby.
    pub fn player_count(&self) -> (count: usize)
        ensures
            self@.players.dom().finite(),
            count == self@.players.len(),
    {
        proof {
            use_type_invariant(self);
        }
        player_table_len(&self.players)
    }

    /// Returns whether a player of the lobby uses `nick`.
    pub fn has_player(&self, nick: &String) -> (present: bool)
        ensures
            self@.players.dom().finite(),
            present == self@.players.contains_key(nick@),
    {
        proof {
            use_type_invariant(self);
        }
        player_table_contains(&self.players, nick)
    }

    /// Returns every player of the lobby, nick and handle, in some order.
    pub fn players(&self) -> (entries: Vec<(String, u64)>)
        ensures
            self@.players.dom().finite(),
            lists_entries(entries@, self@.players),
    {
        proof {
            use_type_invariant(self);
        }
        player_table_entries(&self.players)
    }
}

} // verus!

verus! {

/// Whether a lobby respects its capacity: a waiting lobby is short of players (or empty), and no
/// lobby holds more players than its capacity (or than one, for a lobby of capacity zero).
pub open spec fn within_capacity(lobby: LobbyModel) -> bool {
    &&& lobby.players.dom().finite()
    &&& lobby.status == GameLobbyStatus::Waiting ==> lobby.players.len()
        < lobby.config.number_of_players_in_game_lobby || lobby.players.len() == 0
    &&& lobby.players.len() <= lobby.config.number_of_players_in_game_lobby
        || lobby.players.len() <= 1
}

/// A new lobby respects its capacity.
pub proof fn lemma_new_lobby_within_capacity(config: GameStateConfig)
    ensures
        within_capacity(empty_lobby(config)),
{
    assert(empty_lobby(config).players.dom() =~= Set::<Seq<char>>::empty());
}

/// Adding a player keeps a lobby within its capacity: a player only gets in while the lobby is
/// short of players, and the player that fills it up starts the game.
pub proof fn lemma_add_player_within_capacity(lobby: LobbyModel, nick: Seq<char>, player: u64)
    requires
        within_capacity(lobby),
    ensures
        within_capacity(add_player_spec(lobby, nick, player).1),
{
    if lobby.status == GameLobbyStatus::Waiting && !lobby.players.contains_key(nick) {
        let players = lobby.players.insert(nick, player);
        assert(players.dom() =~= lobby.players.dom().insert(nick));
        assert(players.len() == lobby.players.len() + 1);
    }
}

/// Starting the game keeps a lobby within its capacity.
pub proof fn lemma_start_within_capacity(lobby: LobbyModel)
    requires
        within_capacity(lobby),
    ensures
        within_capacity(
            if lobby.status == GameLobbyStatus::Waiting {
                LobbyModel { status: GameLobbyStatus::Starting, ..lobby }
            } else {
                lobby
            },
        ),
{
}

/// Ending a readiness check keeps a lobby within its capacity: a failed check removes at least
/// one player before the lobby waits again.
pub proof fn lemma_finish_start_within_capacity(
    lobby: LobbyModel,
    replies: Option<Seq<(String, Option<ClientMessage>)>>,
)
    requires
        within_capacity(lobby),
    ensures
        within_capacity(finish_start_spec(lobby, replies)),
{
    if let Some(r) = replies {
        let out = unconfirmed_nicks(lobby.players, r);
        if out != Set::<Seq<char>>::empty() {
            let first = out.choose();
            assert(out.contains(first)) by {
                assert(exists|k: Seq<char>| out.contains(k)) by {
                    if !(exists|k: Seq<char>| out.contains(k)) {
                        assert(out =~= Set::<Seq<char>>::empty());
                    }
                }
            }
            let kept = lobby.players.remove_keys(out);
            assert(kept.dom() =~= lobby.players.dom().difference(out));
            assert(kept.dom().subset_of(lobby.players.dom().remove(first)));
            vstd::set_lib::lemma_len_subset(kept.dom(), lobby.players.dom().remove(first));
        }
    }
}

/// Every nick a readiness check disqualifies comes from a reply that disqualifies its player.
proof fn lemma_unready_nick_origin(replies: Seq<(String, Option<ClientMessage>)>, j: int)
    requires
        0 <= j < unready_nicks(replies).len(),
    ensures
        disqualifies(replies, unready_nicks(replies)[j]),
    decreases replies.len(),
{
    let earlier = replies.drop_last();
    let earlier_nicks = unready_nicks(earlier);
    if j < earlier_nicks.len() {
        lemma_unready_nick_origin(earlier, j);
        let i = choose|i: int|
            0 <= i < earlier.len() && #[trigger] earlier[i].0@ == earlier_nicks[j] && is_unready(
                earlier[i].1,
            );
        assert(replies[i] == earlier[i]);
        assert(replies[i].0@ == unready_nicks(replies)[j]);
    } else {
        let last = replies.len() - 1;
        assert(replies[last].0@ == unready_nicks(replies)[j]);
    }
}

/// The nicks a readiness check disqualifies are exactly those of the replies that sent nothing
/// in time or something else than a confirmation.
pub proof fn lemma_unready_nicks_exact(replies: Seq<(String, Option<ClientMessage>)>)
    ensures
        forall|i: int|
            0 <= i < replies.len() && is_unready(#[trigger] replies[i].1) ==> unready_nicks(
                replies,
            ).contains(replies[i].0@),
        forall|j: int|
            0 <= j < unready_nicks(replies).len() ==> disqualifies(
                replies,
                #[trigger] unready_nicks(replies)[j],
            ),
        unready_nicks(replies).len() <= replies.len(),
    decreases replies.len(),
{
    if replies.len() > 0 {
        let earlier = replies.drop_last();
        lemma_unready_nicks_exact(earlier);
        let nicks = unready_nicks(replies);
        let earlier_nicks = unready_nicks(earlier);
        assert forall|i: int|
            0 <= i < replies.len() && is_unready(#[trigger] replies[i].1) implies nicks.contains(
            replies[i].0@,
        ) by {
            if i < replies.len() - 1 {
                assert(earlier[i] == replies[i]);
                let j = choose|j: int| 0 <= j < earlier_nicks.len() && earlier_nicks[j] == replies[i].0@;
                assert(nicks[j] == earlier_nicks[j]);
            } else {
                assert(nicks[nicks.len() - 1] == replies[i].0@);
            }
        }
    }
    assert forall|j: int| 0 <= j < unready_nicks(replies).len() implies disqualifies(
        replies,
        #[trigger] unready_nicks(replies)[j],
    ) by {
        lemma_unready_nick_origin(replies, j);
    }
}

/// A readiness check lets the game start exactly when the replies confirm the readiness of every
/// player of the lobby; otherwise exactly the players whose readiness is not confirmed leave, and
/// the others stay with their handles.
pub proof fn lemma_finish_start_outcome(lobby: LobbyModel, replies: Seq<(String, Option<ClientMessage>)>)
    ensures
        (finish_start_spec(lobby, Some(replies)).status == GameLobbyStatus::Started) <==> (forall|
            nick: Seq<char>,
        | #[trigger] lobby.players.contains_key(nick) ==> confirmed(replies, nick)),
        forall|nick: Seq<char>|
            #[trigger] finish_start_spec(lobby, Some(replies)).players.contains_key(nick) <==> (
            lobby.players.contains_key(nick) && confirmed(replies, nick)),
        forall|nick: Seq<char>|
            #[trigger] finish_start_spec(lobby, Some(replies)).players.contains_key(nick) ==> finish_start_spec(
                lobby,
                Some(replies),
            ).players[nick] == lobby.players[nick],
{
    let out = unconfirmed_nicks(lobby.players, replies);
    if out == Set::<Seq<char>>::empty() {
        assert forall|nick: Seq<char>| #[trigger] lobby.players.contains_key(nick) implies confirmed(
            replies,
            nick,
        ) by {
            assert(!out.contains(nick));
        }
    } else {
        assert(exists|k: Seq<char>| out.contains(k)) by {
            if !(exists|k: Seq<char>| out.contains(k)) {
                assert(out =~= Set::<Seq<char>>::empty());
            }
        }
        let k = choose|k: Seq<char>| out.contains(k);
        assert(lobby.players.contains_key(k) && !confirmed(replies, k));
    }
}

/// A player that a lobby takes in is in it afterwards under its nick, next to every player that
/// was there; a player the lobby rejects leaves it unchanged and gets its handle back.
pub proof fn lemma_add_player_outcome(lobby: LobbyModel, nick: Seq<char>, player: u64)
    ensures
        ({
            let (result, after) = add_player_spec(lobby, nick, player);
            match result {
                AddPlayerResult::Success | AddPlayerResult::GameStarted => {
                    &&& after.players.contains_key(nick)
                    &&& after.players[nick] == player
                    &&& !lobby.players.contains_key(nick)
                    &&& forall|k: Seq<char>| #[trigger]
                        lobby.players.contains_key(k) ==> after.players.contains_key(k)
                            && after.players[k] == lobby.players[k]
                },
                AddPlayerResult::GameRunning(handle) => after == lobby && handle == player
                    && lobby.status != GameLobbyStatus::Waiting,
                AddPlayerResult::NickTaken(handle) => after == lobby && handle == player
                    && lobby.players.contains_key(nick),
            }
        }),
{
}

/// A lobby's game starts only through a readiness check that confirms the readiness of every
/// player: adding a player and starting never make a lobby `Started`, and a readiness check makes
/// it `Started` only if every player of the lobby has a `PlayerReady` reply among the replies.
pub proof fn lemma_started_only_after_readiness(lobby: LobbyModel, nick: Seq<char>, player: u64)
    requires
        lobby.status != GameLobbyStatus::Started,
    ensures
        add_player_spec(lobby, nick, player).1.status != GameLobbyStatus::Started,
        (if lobby.status == GameLobbyStatus::Waiting {
            GameLobbyStatus::Starting
        } else {
            lobby.status
        }) != GameLobbyStatus::Started,
        forall|replies: Seq<(String, Option<ClientMessage>)>|
            #[trigger] finish_start_spec(lobby, Some(replies)).status == GameLobbyStatus::Started
                ==> forall|k: Seq<char>|
                #[trigger] lobby.players.contains_key(k) ==> exists|i: int|
                    0 <= i < replies.len() && #[trigger] replies[i].0@ == k && is_ready_reply(
                        replies[i].1,
                    ),
{
    assert forall|replies: Seq<(String, Option<ClientMessage>)>|
        #[trigger] finish_start_spec(lobby, Some(replies)).status
            == GameLobbyStatus::Started implies forall|k: Seq<char>|
        #[trigger] lobby.players.contains_key(k) ==> exists|i: int|
            0 <= i < replies.len() && #[trigger] replies[i].0@ == k && is_ready_reply(
                replies[i].1,
            ) by {
        lemma_finish_start_outcome(lobby, replies);
        assert forall|k: Seq<char>| #[trigger] lobby.players.contains_key(k) implies exists|i: int|
            0 <= i < replies.len() && #[trigger] replies[i].0@ == k && is_ready_reply(
                replies[i].1,
            ) by {
            assert(confirmed(replies, k));
            let i = choose|i: int| 0 <= i < replies.len() && #[trigger] replies[i].0@ == k;
            assert(!is_unready(replies[i].1));
            lemma_unready_is_not_ready(replies[i].1);
        }
    }
}

/// A player of the lobby that sends anything but a confirmation of readiness (nothing in time, a
/// welcome, a leave message, an empty message) leaves the lobby when the readiness check ends,
/// and the game does not start; a player whose every reply is a `PlayerReady` stays.
pub proof fn lemma_unconfirming_player_leaves(
    lobby: LobbyModel,
    replies: Seq<(String, Option<ClientMessage>)>,
)
    ensures
        forall|i: int|
            0 <= i < replies.len() && lobby.players.contains_key(#[trigger] replies[i].0@)
                && !is_ready_reply(replies[i].1) ==> !finish_start_spec(
                lobby,
                Some(replies),
            ).players.contains_key(replies[i].0@) && finish_start_spec(lobby, Some(replies)).status
                != GameLobbyStatus::Started,
        forall|nick: Seq<char>|
            #[trigger] lobby.players.contains_key(nick) && replied(replies, nick) && (forall|i: int|
                0 <= i < replies.len() && #[trigger] replies[i].0@ == nick ==> is_ready_reply(
                    replies[i].1,
                )) ==> finish_start_spec(lobby, Some(replies)).players.contains_key(nick),
{
    lemma_finish_start_outcome(lobby, replies);
    assert forall|i: int|
        0 <= i < replies.len() && lobby.players.contains_key(#[trigger] replies[i].0@)
            && !is_ready_reply(replies[i].1) implies !finish_start_spec(
            lobby,
            Some(replies),
        ).players.contains_key(replies[i].0@) && finish_start_spec(lobby, Some(replies)).status
            != GameLobbyStatus::Started by {
        lemma_unready_is_not_ready(replies[i].1);
        assert(disqualifies(replies, replies[i].0@));
        assert(!confirmed(replies, replies[i].0@));
    }
    assert forall|nick: Seq<char>|
        #[trigger] lobby.players.contains_key(nick) && replied(replies, nick) && (forall|i: int|
            0 <= i < replies.len() && #[trigger] replies[i].0@ == nick ==> is_ready_reply(
                replies[i].1,
            )) implies finish_start_spec(lobby, Some(replies)).players.contains_key(nick) by {
        if disqualifies(replies, nick) {
            let i = choose|i: int|
                0 <= i < replies.len() && #[trigger] replies[i].0@ == nick && is_unready(replies[i].1);
            lemma_unready_is_not_ready(replies[i].1);
        }
        assert(confirmed(replies, nick));
    }
}

} // verus!
