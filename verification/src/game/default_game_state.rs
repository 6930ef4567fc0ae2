//! The game state: every game lobby, and the routing of newcomers to them.
use vstd::prelude::*;

use crossbeam_queue::SegQueue;
use dashmap::DashMap;

use crate::config::GameStateConfig;
use crate::game::game_lobby::{
    add_player_action, add_player_spec, empty_lobby, finish_start_verdict, finish_start_spec,
    lemma_add_player_within_capacity, lemma_finish_start_within_capacity,
    lemma_new_lobby_within_capacity, replies_view, within_capacity, AddPlayerResult, GameLobby,
    LobbyAction, LobbyModel, ReadinessVerdict,
};
use crate::game::game_lobby_status::GameLobbyStatus;
use crate::game::join_game_result::JoinGameResult;
use crate::ids::{
    lemma_game_id_ignores_case, new_game_id, parse_game_id, same_ignoring_case, uuid_text_value,
};
use vstd::utf8::encode_utf8;
use crate::model::{ClientMessage, ClientWelcome};
use crate::tables::{
    id_queue_new, id_queue_pop, id_queue_push, lobby_table, lobby_table_ids, lobby_table_insert,
    lobby_table_len, lobby_table_new, lobby_table_remove, queued_ids,
};

verus! {

/// The abstract state of the game state.
pub struct GameStateModel {
    /// The settings every new lobby is created with.
    pub config: GameStateConfig,
    /// Every lobby, by game id.
    pub lobbies: Map<u128, LobbyModel>,
    /// The ids of the lobbies a player without a game id may be sent to, oldest first.
    pub open_lobbies: Seq<u128>,
}

/// What an attempt to join a game amounts to: the result for the player, the lobby it was
/// routed to with the outcome of adding it there, and the game state afterwards.
pub struct JoinStep {
    /// The result handed back to the player's connection.
    pub result: JoinGameResult<u64>,
    /// The lobby the player was offered to, and what the lobby answered.
    pub added: Option<(u128, AddPlayerResult)>,
    /// The game state afterwards.
    pub state: GameStateModel,
}

/// The result of [`DefaultGameState::join_game`] and of its parts.
#[derive(Debug)]
pub struct JoinOutcome {
    /// The result for the player.
    pub result: JoinGameResult<u64>,
    /// The game id of the lobby the player was offered to, if any.
    pub lobby: Option<u128>,
    /// The work that lobby hands to the caller.
    pub action: LobbyAction,
}

/// The game ids and lobbies a player without a game id gets routed through: the ids are taken
/// from the front of `queue` until one names a lobby that has not started. Yields the ids left
/// in the queue and the chosen id, if any. Ids of started lobbies, and ids without a lobby, are
/// dropped on the way.
pub open spec fn find_open_lobby(queue: Seq<u128>, lobbies: Map<u128, LobbyModel>) -> (
    Seq<u128>,
    Option<u128>,
)
    decreases queue.len(),
{
    if queue.len() == 0 {
        (queue, None)
    } else {
        let id = queue[0];
        let rest = queue.drop_first();
        if lobbies.contains_key(id) && lobbies[id].status != GameLobbyStatus::Started {
            (rest, Some(id))
        } else {
            find_open_lobby(rest, lobbies)
        }
    }
}

/// The result for a player whose offer to a lobby was answered with `added`: a taken nick is
/// reported as such, a lobby that does not wait for players as a game that cannot be joined, and
/// a player the lobby took has joined.
pub open spec fn lobby_join_result(added: AddPlayerResult) -> JoinGameResult<u64> {
    match added {
        AddPlayerResult::NickTaken(p) => JoinGameResult::NickTaken(p),
        AddPlayerResult::GameRunning(p) => JoinGameResult::GameDoesNotExit(p),
        _ => JoinGameResult::Joined,
    }
}

/// Joining the game with id `parsed` (`None`: the id given could not be read).
pub open spec fn join_by_id_spec(
    state: GameStateModel,
    parsed: Option<u128>,
    nick: Seq<char>,
    player: u64,
) -> JoinStep {
    match parsed {
        None => JoinStep { result: JoinGameResult::BadRequest(player), added: None, state },
        Some(id) => if !state.lobbies.contains_key(id) {
            JoinStep { result: JoinGameResult::GameDoesNotExit(player), added: None, state }
        } else if state.lobbies[id].status != GameLobbyStatus::Waiting {
            JoinStep { result: JoinGameResult::GameIsFull(player), added: None, state }
        } else {
            let (added, lobby) = add_player_spec(state.lobbies[id], nick, player);
            JoinStep {
                result: lobby_join_result(added),
                added: Some((id, added)),
                state: GameStateModel { lobbies: state.lobbies.insert(id, lobby), ..state },
            }
        },
    }
}

/// Joining a new lobby created under the game id `id`.
pub open spec fn join_new_lobby_spec(
    state: GameStateModel,
    id: u128,
    nick: Seq<char>,
    player: u64,
) -> JoinStep {
    let (added, lobby) = add_player_spec(empty_lobby(state.config), nick, player);
    JoinStep {
        result: JoinGameResult::Joined,
        added: Some((id, added)),
        state: GameStateModel {
            lobbies: state.lobbies.insert(id, lobby),
            open_lobbies: state.open_lobbies.push(id),
            ..state
        },
    }
}

/// Joining whichever lobby is open, or a new one under the game id `fresh` if none is. The
/// open lobby's id goes back to the end of the queue whatever the lobby answered.
pub open spec fn join_any_spec(
    state: GameStateModel,
    nick: Seq<char>,
    player: u64,
    fresh: u128,
) -> JoinStep {
    let (rest, chosen) = find_open_lobby(state.open_lobbies, state.lobbies);
    match chosen {
        Some(id) => {
            let (added, lobby) = add_player_spec(state.lobbies[id], nick, player);
            JoinStep {
                result: lobby_join_result(added),
                added: Some((id, added)),
                state: GameStateModel {
                    lobbies: state.lobbies.insert(id, lobby),
                    open_lobbies: rest.push(id),
                    ..state
                },
            }
        },
        None => join_new_lobby_spec(
            GameStateModel { open_lobbies: rest, ..state },
            fresh,
            nick,
            player,
        ),
    }
}

/// Joining the game a welcome message asks for (`game_id`), or any game if it names none; a new
/// lobby, if one is created, gets the game id `fresh`.
pub open spec fn join_game_spec(
    state: GameStateModel,
    nick: Seq<char>,
    game_id: Option<Seq<char>>,
    player: u64,
    fresh: u128,
) -> JoinStep {
    match game_id {
        Some(text) => join_by_id_spec(state, uuid_text_value(encode_utf8(text)), nick, player),
        None => join_any_spec(state, nick, player, fresh),
    }
}

/// The game state after the readiness check of the lobby with game id `id` ended with
/// `replies`.
pub open spec fn finish_lobby_start_spec(
    state: GameStateModel,
    id: u128,
    replies: Option<Seq<(String, Option<ClientMessage>)>>,
) -> GameStateModel {
    if state.lobbies.contains_key(id) {
        GameStateModel {
            lobbies: state.lobbies.insert(id, finish_start_spec(state.lobbies[id], replies)),
            ..state
        }
    } else {
        state
    }
}

/// Whether `outcome` and the game state `after` are what `step` describes.
pub open spec fn outcome_matches(outcome: JoinOutcome, after: GameStateModel, step: JoinStep) -> bool {
    &&& outcome.result == step.result
    &&& after == step.state
    &&& match step.added {
        Some((id, added)) => outcome.lobby == Some(id) && add_player_action(
            added,
            step.state.lobbies[id],
            outcome.action,
        ),
        None => outcome.lobby is None && outcome.action is Nothing,
    }
}

/// The game id a join outcome reports, or zero.
pub open spec fn reported_lobby(outcome: JoinOutcome) -> u128 {
    match outcome.lobby {
        Some(id) => id,
        None => 0,
    }
}

/// Whether `id` is the value of a version 4 UUID of the RFC 4122 variant, as a randomly drawn
/// game id is: its version nibble is 4 and its two top variant bits are `10`.
pub open spec fn is_random_game_id(id: u128) -> bool {
    id & 0xF000_C000_0000_0000_0000u128 == 0x4000_8000_0000_0000_0000u128
}

/// The text of the game id a welcome message names, if any.
pub open spec fn requested_game(welcome: ClientWelcome) -> Option<Seq<char>> {
    match welcome.game_id {
        Some(text) => Some(text@),
        None => None,
    }
}

/// Returns the result for a player whose offer to a lobby was answered with `added`.
fn join_result(added: &AddPlayerResult) -> (result: JoinGameResult<u64>)
    ensures
        result == lobby_join_result(*added),
{
    match added {
        AddPlayerResult::NickTaken(p) => JoinGameResult::NickTaken(*p),
        AddPlayerResult::GameRunning(p) => JoinGameResult::GameDoesNotExit(*p),
        AddPlayerResult::GameStarted => JoinGameResult::Joined,
        AddPlayerResult::Success => JoinGameResult::Joined,
    }
}

proof fn lemma_models_insert(table: Map<u128, GameLobby>, id: u128, lobby: GameLobby)
    ensures
        table.insert(id, lobby).map_values(|l: GameLobby| l@) == table.map_values(
            |l: GameLobby| l@,
        ).insert(id, lobby@),
{
    assert(table.insert(id, lobby).map_values(|l: GameLobby| l@) =~= table.map_values(
        |l: GameLobby| l@,
    ).insert(id, lobby@));
}

proof fn lemma_models_remove(table: Map<u128, GameLobby>, id: u128)
    ensures
        table.remove(id).map_values(|l: GameLobby| l@) == table.map_values(|l: GameLobby| l@).remove(
            id,
        ),
{
    assert(table.remove(id).map_values(|l: GameLobby| l@) =~= table.map_values(
        |l: GameLobby| l@,
    ).remove(id));
}

/// The game state: responsible for the lobbies and for sending every newcomer to one.
#[derive(Debug)]
pub struct DefaultGameState {
    config: GameStateConfig,
    lobbies: DashMap<u128, GameLobby>,
    not_yet_started_lobbies: SegQueue<u128>,
}

impl View for DefaultGameState {
    type V = GameStateModel;

    open spec fn view(&self) -> GameStateModel {
        self.model()
    }
}

impl DefaultGameState {
    /// The abstract state of the game state.
    pub closed spec fn model(&self) -> GameStateModel {
        GameStateModel {
            config: self.config,
            lobbies: lobby_table(self.lobbies).map_values(|lobby: GameLobby| lobby@),
            open_lobbies: queued_ids(self.not_yet_started_lobbies),
        }
    }

    /// Creates a game state without any lobby, whose lobbies will use `config`.
    pub fn new(config: GameStateConfig) -> (state: Self)
        ensures
            state@.config == config,
            state@.lobbies == Map::<u128, LobbyModel>::empty(),
            state@.open_lobbies == Seq::<u128>::empty(),
    {
        let state = DefaultGameState {
            config,
            lobbies: lobby_table_new(),
            not_yet_started_lobbies: id_queue_new(),
        };
        assert(state@.lobbies =~= Map::<u128, LobbyModel>::empty());
        state
    }

    /// Adds the player with handle `player` to a game, as its welcome message asks.
    ///
    /// With a game id, the player goes to that game: see [`DefaultGameState::join_game_by_id`].
    /// Without one, it goes to whichever lobby is open, or to a new one: see
    /// [`DefaultGameState::join_any_lobby`].
    pub fn join_game(&mut self, welcome_message: ClientWelcome, player: u64) -> (outcome:
        JoinOutcome)
        ensures
            outcome_matches(
                outcome,
                final(self)@,
                join_game_spec(
                    old(self)@,
                    welcome_message.nick@,
                    requested_game(welcome_message),
                    player,
                    reported_lobby(outcome),
                ),
            ),
            welcome_message.game_id is None && find_open_lobby(
                old(self)@.open_lobbies,
                old(self)@.lobbies,
            ).1 is None ==> is_random_game_id(reported_lobby(outcome)),
            welcome_message.game_id is None ==> final(self)@.open_lobbies.len() > 0 && outcome.lobby
                == Some(final(self)@.open_lobbies.last())
                && final(self)@.open_lobbies.drop_last().is_suffix_of(old(self)@.open_lobbies),
    {
        match welcome_message.game_id {
            Some(game_id) => {
                let parsed = parse_game_id(game_id.as_str());
                self.join_game_by_id(parsed, welcome_message.nick, player)
            },
            None => self.join_any_lobby(welcome_message.nick, player),
        }
    }

    /// Adds the player with handle `player` under `nick` to the game whose id was read as
    /// `parsed` (`None`: the id could not be read).
    ///
    /// An unreadable id is a bad request, an unknown one a game that does not exist. A lobby
    /// that does not wait for players is full. Otherwise the lobby decides: a taken nick is
    /// reported as such, and a player that joins, or fills the lobby up, has joined.
    pub fn join_game_by_id(&mut self, parsed: Option<u128>, nick: String, player: u64) -> (outcome:
        JoinOutcome)
        ensures
            outcome_matches(outcome, final(self)@, join_by_id_spec(old(self)@, parsed, nick@, player)),
    {
        let id = match parsed {
            None => {
                return JoinOutcome {
                    result: JoinGameResult::BadRequest(player),
                    lobby: None,
                    action: LobbyAction::Nothing,
                };
            },
            Some(id) => id,
        };
        let ghost before = lobby_table(self.lobbies);
        match lobby_table_remove(&mut self.lobbies, id) {
            None => {
                assert(lobby_table(self.lobbies) =~= before);
                JoinOutcome {
                    result: JoinGameResult::GameDoesNotExit(player),
                    lobby: None,
                    action: LobbyAction::Nothing,
                }
            },
            Some((_, mut lobby)) => {
                assert(lobby@ == old(self)@.lobbies[id]);
                if lobby.get_state() != GameLobbyStatus::Waiting {
                    lobby_table_insert(&mut self.lobbies, id, lobby);
                    assert(lobby_table(self.lobbies) =~= before);
                    return JoinOutcome {
                        result: JoinGameResult::GameIsFull(player),
                        lobby: None,
                        action: LobbyAction::Nothing,
                    };
                }
                let (added, action) = lobby.add_player(nick, player);
                let result = join_result(&added);
                lobby_table_insert(&mut self.lobbies, id, lobby);
                proof {
                    assert(lobby_table(self.lobbies) =~= before.insert(id, lobby));
                    lemma_models_insert(before, id, lobby);
                }
                JoinOutcome { result, lobby: Some(id), action }
            },
        }
    }

    /// Adds the player with handle `player` under `nick` to whichever lobby is open, or to a
    /// new lobby if none is.
    ///
    /// The ids of open lobbies are taken from the front of the queue until one names a lobby
    /// that has not started; ids of started lobbies, and ids without a lobby, are dropped on
    /// the way. The player is offered to that lobby, whose id goes back to the end of the queue; the result is what the
    /// lobby answered, as for a join by game id: a taken nick, a lobby that no longer waits for
    /// players, or a joined player. Without such a lobby, a new one is created under a fresh
    /// random game id.
    pub fn join_any_lobby(&mut self, nick: String, player: u64) -> (outcome: JoinOutcome)
        ensures
            outcome_matches(
                outcome,
                final(self)@,
                join_any_spec(old(self)@, nick@, player, reported_lobby(outcome)),
            ),
            find_open_lobby(old(self)@.open_lobbies, old(self)@.lobbies).1 is None
                ==> is_random_game_id(reported_lobby(outcome)),
            final(self)@.open_lobbies.len() > 0,
            outcome.lobby == Some(final(self)@.open_lobbies.last()),
            final(self)@.open_lobbies.drop_last().is_suffix_of(old(self)@.open_lobbies),
    {
        let ghost start = self@;
        proof {
            lemma_open_lobby_choice(start.open_lobbies, start.lobbies);
        }
        match self.take_open_lobby() {
            Some((id, mut lobby)) => {
                let (added, action) = lobby.add_player(nick, player);
                let result = join_result(&added);
                let ghost after_lobby = lobby@;
                let ghost table = lobby_table(self.lobbies);
                lobby_table_insert(&mut self.lobbies, id, lobby);
                id_queue_push(&mut self.not_yet_started_lobbies, id);
                proof {
                    lemma_models_insert(table, id, lobby);
                    assert(self@.lobbies =~= start.lobbies.insert(id, after_lobby));
                    assert(self@.open_lobbies.drop_last() =~= find_open_lobby(
                        start.open_lobbies,
                        start.lobbies,
                    ).0);
                }
                JoinOutcome { result, lobby: Some(id), action }
            },
            None => {
                let id = new_game_id();
                let outcome = self.join_new_lobby(id, nick, player);
                assert(self@.open_lobbies.drop_last() =~= Seq::<u128>::empty());
                outcome
            },
        }
    }

    /// Takes ids from the front of the queue of open lobbies until one names a lobby that has
    /// not started, and takes that lobby out of the table.
    fn take_open_lobby(&mut self) -> (taken: Option<(u128, GameLobby)>)
        ensures
            ({
                let (rest, chosen) = find_open_lobby(old(self)@.open_lobbies, old(self)@.lobbies);
                &&& final(self)@.config == old(self)@.config
                &&& final(self)@.open_lobbies == rest
                &&& match chosen {
                    Some(id) => taken matches Some(entry) && entry.0 == id && entry.1@
                        == old(self)@.lobbies[id] && final(self)@.lobbies == old(
                        self,
                    )@.lobbies.remove(id),
                    None => taken is None && final(self)@.lobbies == old(self)@.lobbies,
                }
            }),
    {
        let ghost lobbies = self@.lobbies;
        let ghost table = lobby_table(self.lobbies);
        loop
            invariant
                self@.config == old(self)@.config,
                lobbies == old(self)@.lobbies,
                lobbies == table.map_values(|l: GameLobby| l@),
                self@.lobbies == lobbies,
                lobby_table(self.lobbies) == table,
                find_open_lobby(self@.open_lobbies, lobbies) == find_open_lobby(
                    old(self)@.open_lobbies,
                    lobbies,
                ),
            decreases self@.open_lobbies.len(),
        {
            let ghost queue = self@.open_lobbies;
            let id = match id_queue_pop(&mut self.not_yet_started_lobbies) {
                None => {
                    assert(find_open_lobby(queue, lobbies) == (queue, Option::<u128>::None));
                    return None;
                },
                Some(id) => id,
            };
            match lobby_table_remove(&mut self.lobbies, id) {
                Some((_, lobby)) => {
                    if lobby.get_state() == GameLobbyStatus::Started {
                        lobby_table_insert(&mut self.lobbies, id, lobby);
                        assert(lobby_table(self.lobbies) =~= table);
                    } else {
                        proof {
                            lemma_models_remove(table, id);
                        }
                        assert(lobby@ == lobbies[id]);
                        assert(find_open_lobby(queue, lobbies) == (queue.drop_first(), Some(id)));
                        return Some((id, lobby));
                    }
                },
                None => {
                    assert(lobby_table(self.lobbies) =~= table);
                },
            }
        }
    }

    /// Creates a lobby under the game id `id`, adds the player with handle `player` under `nick`
    /// to it, and queues the id among the open lobbies. A lobby that had the same id is
    /// replaced.
    pub fn join_new_lobby(&mut self, id: u128, nick: String, player: u64) -> (outcome: JoinOutcome)
        ensures
            outcome_matches(outcome, final(self)@, join_new_lobby_spec(old(self)@, id, nick@, player)),
    {
        let mut lobby = GameLobby::new(self.config);
        let (_, action) = lobby.add_player(nick, player);
        let ghost table = lobby_table(self.lobbies);
        lobby_table_insert(&mut self.lobbies, id, lobby);
        id_queue_push(&mut self.not_yet_started_lobbies, id);
        proof {
            lemma_models_insert(table, id, lobby);
        }
        JoinOutcome { result: JoinGameResult::Joined, lobby: Some(id), action }
    }

    /// Ends the readiness check of the lobby with game id `id`; see
    /// [`GameLobby::finish_start`]. Without such a lobby nothing happens.
    pub fn finish_lobby_start(
        &mut self,
        id: u128,
        replies: Option<Vec<(String, Option<ClientMessage>)>>,
    ) -> (verdict: Option<ReadinessVerdict>)
        ensures
            final(self)@ == finish_lobby_start_spec(old(self)@, id, replies_view(replies)),
            !old(self)@.lobbies.contains_key(id) ==> verdict is None,
            old(self)@.lobbies.contains_key(id) ==> finish_start_verdict(
                old(self)@.lobbies[id],
                replies_view(replies),
                final(self)@.lobbies[id],
                verdict,
            ),
    {
        let ghost table = lobby_table(self.lobbies);
        match lobby_table_remove(&mut self.lobbies, id) {
            None => {
                assert(lobby_table(self.lobbies) =~= table);
                None
            },
            Some((_, mut lobby)) => {
                assert(lobby@ == old(self)@.lobbies[id]);
                let verdict = lobby.finish_start(replies);
                let ghost after_lobby = lobby@;
                lobby_table_insert(&mut self.lobbies, id, lobby);
                proof {
                    lemma_models_insert(table, id, lobby);
                    assert(self@.lobbies == old(self)@.lobbies.insert(id, after_lobby));
                    assert(self@.lobbies[id] == after_lobby);
                    assert(self@.config == old(self)@.config);
                    assert(self@.open_lobbies == old(self)@.open_lobbies);
                }
                verdict
            },
        }
    }

    /// Returns the settings every new lobby is created with.
    pub fn get_config(&self) -> (config: GameStateConfig)
        ensures
            config == self@.config,
    {
        self.config
    }

    /// Puts `lobby` into the game state under the game id `id`, replacing any lobby that had it.
    /// The id is not queued among the open lobbies.
    pub fn insert_lobby(&mut self, id: u128, lobby: GameLobby)
        ensures
            final(self)@ == (GameStateModel {
                lobbies: old(self)@.lobbies.insert(id, lobby@),
                ..old(self)@
            }),
    {
        let ghost table = lobby_table(self.lobbies);
        lobby_table_insert(&mut self.lobbies, id, lobby);
        proof {
            lemma_models_insert(table, id, lobby);
        }
    }

    /// Returns the number of lobbies.
    pub fn lobby_count(&self) -> (count: usize)
        ensures
            count == self@.lobbies.len(),
    {
        let count = lobby_table_len(&self.lobbies);
        assert(self@.lobbies.dom() =~= lobby_table(self.lobbies).dom());
        count
    }

    /// Returns the game id of every lobby, each once, in some order.
    pub fn lobby_ids(&self) -> (ids: Vec<u128>)
        ensures
            ids@.len() == self@.lobbies.len(),
            ids@.to_set() == self@.lobbies.dom(),
            ids@.no_duplicates(),
    {
        let ids = lobby_table_ids(&self.lobbies);
        assert(self@.lobbies.dom() =~= lobby_table(self.lobbies).dom());
        assert(ids@.to_set() =~= self@.lobbies.dom());
        ids
    }

    /// Returns the status and the number of players of the lobby with game id `id`, if there is
    /// one. The game state is left as it was.
    pub fn lobby_summary(&mut self, id: u128) -> (summary: Option<(GameLobbyStatus, usize)>)
        ensures
            final(self)@ == old(self)@,
            summary == (if old(self)@.lobbies.contains_key(id) {
                Some(
                    (
                        old(self)@.lobbies[id].status,
                        old(self)@.lobbies[id].players.len() as usize,
                    ),
                )
            } else {
                None
            }),
    {
        let ghost table = lobby_table(self.lobbies);
        match lobby_table_remove(&mut self.lobbies, id) {
            None => {
                assert(lobby_table(self.lobbies) =~= table);
                None
            },
            Some((_, lobby)) => {
                assert(lobby@ == old(self)@.lobbies[id]);
                let summary = (lobby.get_state(), lobby.player_count());
                lobby_table_insert(&mut self.lobbies, id, lobby);
                assert(lobby_table(self.lobbies) =~= table);
                Some(summary)
            },
        }
    }
}

} // verus!

verus! {

/// The handle a join result gives back, if it rejects the player.
pub open spec fn returned_handle(result: JoinGameResult<u64>) -> Option<u64> {
    match result {
        JoinGameResult::Joined => None,
        JoinGameResult::GameIsFull(p) => Some(p),
        JoinGameResult::GameDoesNotExit(p) => Some(p),
        JoinGameResult::NickTaken(p) => Some(p),
        JoinGameResult::BadRequest(p) => Some(p),
    }
}

/// A refused request to join changes no lobby and no setting, and the refused player gets its
/// own handle back. (Only the queue of open lobbies may change: ids of started lobbies are
/// dropped from it, and the id of the lobby the player was offered to goes to its end.)
pub proof fn lemma_refused_join_changes_nothing(
    state: GameStateModel,
    nick: Seq<char>,
    game_id: Option<Seq<char>>,
    player: u64,
    fresh: u128,
)
    ensures
        ({
            let step = join_game_spec(state, nick, game_id, player, fresh);
            step.result != JoinGameResult::<u64>::Joined ==> step.state.lobbies == state.lobbies
                && step.state.config == state.config && returned_handle(step.result) == Some(
                player,
            )
        }),
{
    let step = join_game_spec(state, nick, game_id, player, fresh);
    let offered = match game_id {
        Some(text) => uuid_text_value(encode_utf8(text)),
        None => find_open_lobby(state.open_lobbies, state.lobbies).1,
    };
    lemma_open_lobby_choice(state.open_lobbies, state.lobbies);
    if let Some(id) = offered {
        if state.lobbies.contains_key(id) {
            let (added, lobby) = add_player_spec(state.lobbies[id], nick, player);
            if !(added is Success) && !(added is GameStarted) {
                assert(state.lobbies.insert(id, lobby) =~= state.lobbies);
            }
        }
    }
}

/// A player that is told it joined is in the lobby it was offered to, under its nick and with
/// its handle.
pub proof fn lemma_joined_player_is_in_its_lobby(
    state: GameStateModel,
    nick: Seq<char>,
    game_id: Option<Seq<char>>,
    player: u64,
    fresh: u128,
)
    ensures
        ({
            let step = join_game_spec(state, nick, game_id, player, fresh);
            step.result == JoinGameResult::<u64>::Joined ==> (step.added matches Some(entry) && {
                let id = entry.0;
                &&& step.state.lobbies.contains_key(id)
                &&& step.state.lobbies[id].players.contains_key(nick)
                &&& step.state.lobbies[id].players[nick] == player
            })
        }),
{
    lemma_open_lobby_choice(state.open_lobbies, state.lobbies);
}

/// Joining the id of a lobby that waits for players, under a nick nobody there uses, puts the
/// player into that lobby under its nick.
pub proof fn lemma_join_by_id_routes(state: GameStateModel, id: u128, nick: Seq<char>, player: u64)
    requires
        state.lobbies.contains_key(id),
        state.lobbies[id].status == GameLobbyStatus::Waiting,
        !state.lobbies[id].players.contains_key(nick),
    ensures
        ({
            let step = join_by_id_spec(state, Some(id), nick, player);
            &&& step.result == JoinGameResult::<u64>::Joined
            &&& step.state.lobbies.contains_key(id)
            &&& step.state.lobbies[id].players.contains_key(nick)
            &&& step.state.lobbies[id].players[nick] == player
        }),
{
}

/// The lobby a player without a game id is sent to exists and has not started, and the ids left
/// in the queue are what followed it; when there is no such lobby, the queue is used up.
pub proof fn lemma_open_lobby_choice(queue: Seq<u128>, lobbies: Map<u128, LobbyModel>)
    ensures
        ({
            let (rest, chosen) = find_open_lobby(queue, lobbies);
            &&& rest.len() <= queue.len()
            &&& rest == queue.subrange(queue.len() - rest.len(), queue.len() as int)
            &&& match chosen {
                Some(id) => lobbies.contains_key(id) && lobbies[id].status
                    != GameLobbyStatus::Started,
                None => rest.len() == 0,
            }
        }),
    decreases queue.len(),
{
    if queue.len() > 0 {
        let rest = queue.drop_first();
        let id = queue[0];
        if lobbies.contains_key(id) && lobbies[id].status != GameLobbyStatus::Started {
            assert(rest =~= queue.subrange(queue.len() - rest.len(), queue.len() as int));
        } else {
            lemma_open_lobby_choice(rest, lobbies);
            let (r, _) = find_open_lobby(rest, lobbies);
            assert(r == queue.subrange(queue.len() - r.len(), queue.len() as int));
        }
    } else {
        assert(queue =~= queue.subrange(0, 0));
    }
}

/// A player without a game id is offered to exactly one lobby, and that lobby's id ends the queue
/// of open lobbies afterwards, whatever the lobby answered (took the player, filled up, found the
/// nick taken, or no longer waited); before it stand the ids that followed it in the queue. The
/// first id of the queue that names a lobby that has not started is the one offered.
pub proof fn lemma_join_without_id_requeues(
    state: GameStateModel,
    nick: Seq<char>,
    player: u64,
    fresh: u128,
)
    ensures
        ({
            let step = join_game_spec(state, nick, None, player, fresh);
            step.added matches Some(entry) && {
                let offered = entry.0;
                &&& step.state.open_lobbies.len() > 0
                &&& step.state.open_lobbies.last() == offered
                &&& step.state.open_lobbies.drop_last().is_suffix_of(state.open_lobbies)
                &&& (state.open_lobbies.len() > 0 && state.lobbies.contains_key(
                    state.open_lobbies[0],
                ) && state.lobbies[state.open_lobbies[0]].status != GameLobbyStatus::Started)
                    ==> offered == state.open_lobbies[0]
            }
        }),
{
    lemma_open_lobby_choice(state.open_lobbies, state.lobbies);
    let step = join_game_spec(state, nick, None, player, fresh);
    let (rest, chosen) = find_open_lobby(state.open_lobbies, state.lobbies);
    assert(step.state.open_lobbies.drop_last() =~= rest);
}

/// Joining by game id does not depend on the case of the id's letters: a game id written in upper
/// case, lower case or a mix leads to the same game, with the same result, as long as the texts'
/// bytes differ only in the case of ASCII letters.
pub proof fn lemma_join_by_id_ignores_case(
    state: GameStateModel,
    nick: Seq<char>,
    first: Seq<char>,
    second: Seq<char>,
    player: u64,
    fresh: u128,
)
    requires
        same_ignoring_case(encode_utf8(first), encode_utf8(second)),
    ensures
        join_game_spec(state, nick, Some(first), player, fresh) == join_game_spec(
            state,
            nick,
            Some(second),
            player,
            fresh,
        ),
{
    lemma_game_id_ignores_case(encode_utf8(first), encode_utf8(second));
}

/// Joining never removes a lobby, and it changes no lobby but the one the player was offered
/// to.
pub proof fn lemma_join_keeps_other_lobbies(
    state: GameStateModel,
    nick: Seq<char>,
    game_id: Option<Seq<char>>,
    player: u64,
    fresh: u128,
)
    ensures
        ({
            let step = join_game_spec(state, nick, game_id, player, fresh);
            &&& forall|id: u128| #[trigger]
                state.lobbies.contains_key(id) ==> step.state.lobbies.contains_key(id)
            &&& forall|id: u128|
                #[trigger] state.lobbies.contains_key(id) && !(step.added matches Some(a)
                    && a.0 == id) ==> step.state.lobbies[id] == state.lobbies[id]
            &&& step.state.config == state.config
        }),
{
}

/// Whether every lobby of a game state respects its capacity.
pub open spec fn lobbies_within_capacity(state: GameStateModel) -> bool {
    forall|id: u128| #[trigger] state.lobbies.contains_key(id) ==> within_capacity(state.lobbies[id])
}

/// Joining keeps every lobby of the game state within its capacity.
pub proof fn lemma_join_within_capacity(
    state: GameStateModel,
    nick: Seq<char>,
    game_id: Option<Seq<char>>,
    player: u64,
    fresh: u128,
)
    requires
        lobbies_within_capacity(state),
    ensures
        lobbies_within_capacity(join_game_spec(state, nick, game_id, player, fresh).state),
{
    let step = join_game_spec(state, nick, game_id, player, fresh);
    if let Some((id, _)) = step.added {
        match game_id {
            Some(text) => {
                lemma_add_player_within_capacity(state.lobbies[id], nick, player);
            },
            None => {
                let (rest, chosen) = find_open_lobby(state.open_lobbies, state.lobbies);
                lemma_open_lobby_choice(state.open_lobbies, state.lobbies);
                if chosen is Some {
                    lemma_add_player_within_capacity(state.lobbies[id], nick, player);
                } else {
                    lemma_new_lobby_within_capacity(state.config);
                    lemma_add_player_within_capacity(empty_lobby(state.config), nick, player);
                }
            },
        }
    }
}

/// Ending a lobby's readiness check keeps every lobby of the game state within its capacity.
pub proof fn lemma_finish_lobby_start_within_capacity(
    state: GameStateModel,
    id: u128,
    replies: Option<Seq<(String, Option<ClientMessage>)>>,
)
    requires
        lobbies_within_capacity(state),
    ensures
        lobbies_within_capacity(finish_lobby_start_spec(state, id, replies)),
{
    if state.lobbies.contains_key(id) {
        lemma_finish_start_within_capacity(state.lobbies[id], replies);
    }
}

} // verus!
