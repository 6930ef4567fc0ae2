//! The outside collections the game state is kept in, and what the library relies on about them.
//!
//! A lobby's players live in a `dashmap::DashMap` from nick to player handle, the lobbies in a
//! `dashmap::DashMap` from game id to lobby, and the ids of the lobbies that may still take
//! players in a `crossbeam_queue::SegQueue`. Each contents is named by a spec function, and every
//! operation the library performs on them is a small wrapper whose contract says, over that name,
//! what the crate's source does.
use vstd::prelude::*;

use crossbeam_queue::SegQueue;
use dashmap::DashMap;

use crate::game::game_lobby::GameLobby;

verus! {

/// A `dashmap::DashMap`, carried through the library opaquely.
#[verifier::external_type_specification]
#[verifier::external_body]
#[verifier::reject_recursive_types(K)]
#[verifier::reject_recursive_types(V)]
#[verifier::reject_recursive_types(S)]
pub struct ExDashMap<K, V, S>(DashMap<K, V, S>);

/// A `crossbeam_queue::SegQueue`, carried through the library opaquely.
#[verifier::external_type_specification]
#[verifier::external_body]
#[verifier::reject_recursive_types(T)]
pub struct ExSegQueue<T>(SegQueue<T>);

/// The entries of a lobby's player table: each nick (by its characters) with its player handle.
pub uninterp spec fn player_table(table: DashMap<String, u64>) -> Map<Seq<char>, u64>;

/// The entries of the lobby table: each game id with its lobby.
pub uninterp spec fn lobby_table(table: DashMap<u128, GameLobby>) -> Map<u128, GameLobby>;

/// The ids held by a queue of lobby ids, front first.
pub uninterp spec fn queued_ids(queue: SegQueue<u128>) -> Seq<u128>;

/// Whether `entries` lists every entry of `table` exactly once, in some order.
pub open spec fn lists_entries(entries: Seq<(String, u64)>, table: Map<Seq<char>, u64>) -> bool {
    &&& entries.len() == table.len()
    &&& forall|i: int|
        0 <= i < entries.len() ==> #[trigger] table.contains_key(entries[i].0@) && table[entries[i].0@]
            == entries[i].1
    &&& forall|i: int, j: int|
        0 <= i < entries.len() && 0 <= j < entries.len() && i != j ==> #[trigger] entries[i].0@
            != #[trigger] entries[j].0@
    &&& forall|k: Seq<char>|
        #[trigger] table.contains_key(k) ==> exists|i: int|
            0 <= i < entries.len() && #[trigger] entries[i].0@ == k
}

/// Creates an empty player table with `DashMap::new`.
#[verifier::external_body]
pub(crate) fn player_table_new() -> (fresh: DashMap<String, u64>)
    ensures
        player_table(fresh) =~= Map::empty(),
{
    DashMap::new()
}

/// Inserts with `DashMap::insert`: the nick is mapped to `player`, and the handle it was mapped
/// to before, if any, is returned.
#[verifier::external_body]
pub(crate) fn player_table_insert(table: &mut DashMap<String, u64>, nick: String, player: u64) -> (previous:
    Option<u64>)
    ensures
        player_table(*final(table)) == player_table(*old(table)).insert(nick@, player),
        previous == (if player_table(*old(table)).contains_key(nick@) {
            Some(player_table(*old(table))[nick@])
        } else {
            None
        }),
{
    table.insert(nick, player)
}

/// Removes with `DashMap::remove`: the entry of `nick` leaves the table and is returned, if there
/// was one.
#[verifier::external_body]
pub(crate) fn player_table_remove(table: &mut DashMap<String, u64>, nick: &String) -> (removed: Option<
    (String, u64),
>)
    ensures
        player_table(*final(table)) == player_table(*old(table)).remove(nick@),
        removed is Some <==> player_table(*old(table)).contains_key(nick@),
        removed matches Some(entry) ==> entry.0@ == nick@ && entry.1 == player_table(
            *old(table),
        )[nick@],
{
    table.remove(nick)
}

/// Asks `DashMap::contains_key` whether `nick` has an entry.
#[verifier::external_body]
pub(crate) fn player_table_contains(table: &DashMap<String, u64>, nick: &String) -> (present: bool)
    ensures
        present == player_table(*table).contains_key(nick@),
{
    table.contains_key(nick)
}

/// Counts the entries with `DashMap::len`.
#[verifier::external_body]
pub(crate) fn player_table_len(table: &DashMap<String, u64>) -> (count: usize)
    ensures
        count == player_table(*table).len(),
{
    table.len()
}

/// Lists the entries by walking `DashMap::iter`, which visits every shard, and every entry in
/// it, once. The order is the order of the shards' hash tables, which this contract leaves open.
#[verifier::external_body]
pub(crate) fn player_table_entries(table: &DashMap<String, u64>) -> (entries: Vec<(String, u64)>)
    ensures
        lists_entries(entries@, player_table(*table)),
{
    table.iter().map(|entry| (entry.key().clone(), *entry.value())).collect()
}

/// Creates an empty queue with `SegQueue::new`.
#[verifier::external_body]
pub(crate) fn id_queue_new() -> (queue: SegQueue<u128>)
    ensures
        queued_ids(queue) == Seq::<u128>::empty(),
{
    SegQueue::new()
}

/// Appends `id` at the back with `SegQueue::push`.
#[verifier::external_body]
pub(crate) fn id_queue_push(queue: &mut SegQueue<u128>, id: u128)
    ensures
        queued_ids(*final(queue)) == queued_ids(*old(queue)).push(id),
{
    queue.push(id)
}

/// Takes the front id with `SegQueue::pop`; an empty queue gives `None` and stays empty.
#[verifier::external_body]
pub(crate) fn id_queue_pop(queue: &mut SegQueue<u128>) -> (front: Option<u128>)
    ensures
        queued_ids(*old(queue)).len() == 0 ==> front is None && queued_ids(*final(queue))
            == queued_ids(*old(queue)),
        queued_ids(*old(queue)).len() > 0 ==> front == Some(queued_ids(*old(queue))[0])
            && queued_ids(*final(queue)) == queued_ids(*old(queue)).drop_first(),
{
    queue.pop()
}

/// Creates an empty lobby table with `DashMap::new`.
#[verifier::external_body]
pub(crate) fn lobby_table_new() -> (fresh: DashMap<u128, GameLobby>)
    ensures
        lobby_table(fresh) =~= Map::empty(),
{
    DashMap::new()
}

/// Inserts with `DashMap::insert`: `id` is mapped to `lobby`, and the lobby it was mapped to
/// before, if any, is returned.
#[verifier::external_body]
pub(crate) fn lobby_table_insert(table: &mut DashMap<u128, GameLobby>, id: u128, lobby: GameLobby) -> (previous:
    Option<GameLobby>)
    ensures
        lobby_table(*final(table)) == lobby_table(*old(table)).insert(id, lobby),
        previous == (if lobby_table(*old(table)).contains_key(id) {
            Some(lobby_table(*old(table))[id])
        } else {
            None
        }),
{
    table.insert(id, lobby)
}

/// Removes with `DashMap::remove`: the entry of `id` leaves the table and is returned, if there
/// was one.
#[verifier::external_body]
pub(crate) fn lobby_table_remove(table: &mut DashMap<u128, GameLobby>, id: u128) -> (removed: Option<
    (u128, GameLobby),
>)
    ensures
        lobby_table(*final(table)) == lobby_table(*old(table)).remove(id),
        removed is Some <==> lobby_table(*old(table)).contains_key(id),
        removed matches Some(entry) ==> entry.0 == id && entry.1 == lobby_table(*old(table))[id],
{
    table.remove(&id)
}

/// Counts the entries with `DashMap::len`.
#[verifier::external_body]
pub(crate) fn lobby_table_len(table: &DashMap<u128, GameLobby>) -> (count: usize)
    ensures
        count == lobby_table(*table).len(),
{
    table.len()
}

/// Lists the game ids by walking `DashMap::iter`, which visits every entry once, in an order
/// this contract leaves open.
#[verifier::external_body]
pub(crate) fn lobby_table_ids(table: &DashMap<u128, GameLobby>) -> (ids: Vec<u128>)
    ensures
        ids@.len() == lobby_table(*table).len(),
        forall|i: int| 0 <= i < ids@.len() ==> #[trigger] lobby_table(*table).contains_key(ids@[i]),
        forall|i: int, j: int|
            0 <= i < ids@.len() && 0 <= j < ids@.len() && i != j ==> #[trigger] ids@[i]
                != #[trigger] ids@[j],
        forall|id: u128|
            #[trigger] lobby_table(*table).contains_key(id) ==> ids@.contains(id),
{
    table.iter().map(|entry| *entry.key()).collect()
}

} // verus!
