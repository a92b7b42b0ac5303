//! Data repository kept in memory.

use std::collections::hash_map::Entry;
use std::collections::HashMap;

use vstd::prelude::*;
use vstd::std_specs::hash::*;
use vstd::std_specs::iter::IteratorSpec;

use crate::physics::{
    GravityDataGateway, IntegrateDataGateway, MissileInfoData, MissilePosAcc, PlayerInfoData,
    PlayerPosAcc, StarData,
};
use crate::repo_interfaces::{
    InGameState, MissileId, MissileIdData, PlayerId, PlayerIdData, ScalarData, Vec2Data,
};
use crate::user_input::{
    MissileLaunchData, PlayerMovementDataGateway, PlayerPosAndVelocityData, ShootDataGateway,
};
use crate::world::{resting_object, MovingObject, PlayerRecord, World, WorldView};

verus! {

broadcast use vstd::std_specs::hash::group_hash_axioms;

/// Room made for the missiles of a new player.
const MISSILE_CAPACITY: usize = 5;

/// Room made for the players of a new game.
const PLAYER_CAPACITY: usize = 2;

/// What the store holds of one missile.
pub type MissileState = MovingObject;

/// What the store holds of one player.
#[derive(Clone, Debug, PartialEq)]
pub struct PlayerState {
    pub player_object: MovingObject,
    pub missiles: Vec<MissileState>,
}

/// The record of a player that has just joined: a ship at rest, no missile.
pub open spec fn new_player_record() -> PlayerRecord {
    PlayerRecord { body: resting_object(), missiles: Seq::empty() }
}

impl PlayerState {
    /// This player's state as a value of specifications.
    pub open spec fn record(&self) -> PlayerRecord {
        PlayerRecord { body: self.player_object, missiles: self.missiles@ }
    }
}

impl Default for PlayerState {
    fn default() -> (state: Self)
        ensures
            state.record() == new_player_record(),
    {
        Self {
            player_object: MovingObject::default(),
            missiles: Vec::with_capacity(MISSILE_CAPACITY),
        }
    }
}

/// The game state in memory: the stars, and the players under their ids.
pub struct GameState {
    stars: Vec<StarData>,
    player: HashMap<PlayerIdData, PlayerState>,
}

impl View for GameState {
    type V = World;

    closed spec fn view(&self) -> World {
        World {
            stars: self.stars@,
            players: Map::new(
                |id: PlayerIdData| self.player@.contains_key(id),
                |id: PlayerIdData| self.player@[id].record(),
            ),
        }
    }
}

impl WorldView for GameState {
    open spec fn world(&self) -> World {
        self@
    }
}

/// The world in which a game starts: no star, and the players 1 and 2.
pub open spec fn initial_world() -> World {
    World {
        stars: Seq::empty(),
        players: Map::empty().insert(1usize, new_player_record()).insert(
            2usize,
            new_player_record(),
        ),
    }
}

/// How many missiles the player at place `q` of `ids` has.
spec fn missile_count(world: World, ids: Seq<PlayerId>, q: int) -> int {
    world.players[ids[q]].missiles.len() as int
}

/// Entry `k` of `missiles` is a missile of the world, under its own key, and
/// stands where `starts` and `owner` say.
spec fn listed(
    world: World,
    ids: Seq<PlayerId>,
    starts: Seq<int>,
    owner: Seq<int>,
    missiles: Seq<(PlayerId, MissileId, &MissileState)>,
    k: int,
) -> bool {
    let e = missiles[k];
    &&& 0 <= owner[k] < starts.len()
    &&& e.0 == ids[owner[k]]
    &&& k == starts[owner[k]] + e.1
    &&& world.has_missile(e.0, e.1)
    &&& *e.2 == world.players[e.0].missiles[e.1 as int]
}

/// Missile `m` of the player at place `q` of `ids` stands in `missiles` where
/// `starts` says.
spec fn placed(
    ids: Seq<PlayerId>,
    starts: Seq<int>,
    missiles: Seq<(PlayerId, MissileId, &MissileState)>,
    q: int,
    m: int,
) -> bool {
    let k = starts[q] + m;
    &&& 0 <= k < missiles.len()
    &&& missiles[k].0 == ids[q]
    &&& missiles[k].1 == m
}

impl GameState {
    /// The state in which a game starts.
    pub fn new() -> (state: Self)
        ensures
            state@ == initial_world(),
    {
        let mut state = Self { player: HashMap::with_capacity(PLAYER_CAPACITY), stars: Vec::new() };
        state.add_player(1);
        state.add_player(2);
        assert(state@.players =~= initial_world().players);
        state
    }

    /// Add new player
    ///
    /// Reset player data to defaults, if player id already exists.
    pub fn add_player(&mut self, id: PlayerIdData)
        ensures
            final(self)@ == (World {
                players: old(self)@.players.insert(id, new_player_record()),
                ..old(self)@
            }),
    {
        self.player.insert(id, PlayerState::default());
        assert(self@.players =~= old(self)@.players.insert(id, new_player_record()));
    }

    /// Whether there is a player `id`.
    pub fn has_player(&self, id: &PlayerIdData) -> (found: bool)
        ensures
            found == self@.has_player(*id),
    {
        self.player.contains_key(id)
    }

    /// The state of player `id`, who must exist.
    pub fn get_player(&self, id: &PlayerIdData) -> (player: &PlayerState)
        requires
            self@.has_player(*id),
        ensures
            player.record() == self@.players[*id],
    {
        let found = self.player.get(id);
        found.unwrap()
    }

    /// The state of player `id`, who must exist, to be changed in place.
    pub fn get_player_mut(&mut self, id: &PlayerIdData) -> (player: &mut PlayerState)
        requires
            old(self)@.has_player(*id),
        ensures
            player.record() == old(self)@.players[*id],
            final(self)@.stars == old(self)@.stars,
            final(self)@.players =~= old(self)@.players.insert(*id, final(player).record()),
    {
        match self.player.entry(*id) {
            Entry::Occupied(entry) => entry.into_mut(),
            Entry::Vacant(_) => vstd::pervasive::unreached(),
        }
    }

    /// Append a missile to those of player `player_id`, who must exist.
    pub fn add_missile(&mut self, player_id: &PlayerIdData, data: MissileState)
        requires
            old(self)@.has_player(*player_id),
        ensures
            final(self)@ == old(self)@.with_new_missile(*player_id, data),
    {
        let player = self.get_player_mut(player_id);
        player.missiles.push(data);
    }

    /// Missile `missile_id` of player `player_id`; it must exist.
    pub fn get_missile(&self, player_id: &PlayerIdData, missile_id: MissileIdData) -> (missile:
        &MissileState)
        requires
            self@.has_missile(*player_id, missile_id),
        ensures
            *missile == self@.players[*player_id].missiles[missile_id as int],
    {
        &self.get_player(player_id).missiles[missile_id]
    }

    /// Missile `missile_id` of player `player_id`, to be changed in place; it
    /// must exist.
    pub fn get_missile_mut(&mut self, player_id: &PlayerIdData, missile_id: MissileIdData) -> (missile:
        &mut MissileState)
        requires
            old(self)@.has_missile(*player_id, missile_id),
        ensures
            *missile == old(self)@.players[*player_id].missiles[missile_id as int],
            final(self)@ == old(self)@.with_missile(*player_id, missile_id, *final(missile)),
    {
        let player = self.get_player_mut(player_id);
        &mut player.missiles[missile_id]
    }

    /// Every player with its id, each once, in no particular order.
    pub fn iter_player(&self) -> (players: Vec<(PlayerId, &PlayerState)>)
        ensures
            self@.is_roster(players@.map_values(|e: (PlayerId, &PlayerState)| e.0)),
            forall|i: int|
                0 <= i < players@.len() ==> (#[trigger] players@[i]).1.record()
                    == self@.players[players@[i].0],
    {
        let mut players: Vec<(PlayerId, &PlayerState)> = Vec::new();
        let ghost walk = spec_hash_map_iter(&self.player).remaining();
        for (id, data) in it: self.player.iter()
            invariant
                it.seq() == walk,
                walk.no_duplicates(),
                players@.len() == it.index(),
                forall|i: int|
                    0 <= i < players@.len() ==> (#[trigger] players@[i]) == (
                        *walk[i].0,
                        walk[i].1,
                    ),
        {
            players.push((*id, data));
        }
        proof {
            let ids = players@.map_values(|e: (PlayerId, &PlayerState)| e.0);
            assert forall|i: int, j: int| 0 <= i < ids.len() && 0 <= j < ids.len() && i != j implies ids[i]
                != ids[j] by {
                if ids[i] == ids[j] {
                    assert(self.player@[*walk[j].0] == *walk[j].1);
                }
            }
            assert forall|id: PlayerId| self@.has_player(id) implies ids.contains(id) by {
                let i = choose|i: int| 0 <= i < walk.len() && walk[i] == (&id, &self.player@[id]);
                assert(ids[i] == id);
            }
        }
        players
    }

    /// Every missile with its player's id and its index, each once, in no
    /// particular order.
    pub fn iter_missiles(&self) -> (missiles: Vec<(PlayerId, MissileId, &MissileState)>)
        ensures
            self@.is_missile_roster(
                missiles@.map_values(|e: (PlayerId, MissileId, &MissileState)| (e.0, e.1)),
            ),
            forall|i: int|
                0 <= i < missiles@.len() ==> *(#[trigger] missiles@[i]).2
                    == self@.players[missiles@[i].0].missiles[missiles@[i].1 as int],
    {
        let players = self.iter_player();
        let ghost ids = players@.map_values(|e: (PlayerId, &PlayerState)| e.0);
        let mut missiles: Vec<(PlayerId, MissileId, &MissileState)> = Vec::new();
        // For each player walked so far, where its missiles start in `missiles`;
        // for each entry of `missiles`, the place of its player in `players`.
        let ghost mut starts: Seq<int> = Seq::empty();
        let ghost mut owner: Seq<int> = Seq::empty();
        let mut p: usize = 0;
        while p < players.len()
            invariant
                p <= players@.len(),
                ids == players@.map_values(|e: (PlayerId, &PlayerState)| e.0),
                self@.is_roster(ids),
                forall|i: int|
                    0 <= i < players@.len() ==> (#[trigger] players@[i]).1.record()
                        == self@.players[players@[i].0],
                starts.len() == p,
                owner.len() == missiles@.len(),
                forall|k: int|
                    0 <= k < missiles@.len() ==> listed(self@, ids, starts, owner, missiles@, k),
                forall|q: int, m: int|
                    0 <= q < p && 0 <= m < missile_count(self@, ids, q) ==> placed(
                        ids,
                        starts,
                        missiles@,
                        q,
                        m,
                    ),
            decreases players@.len() - p,
        {
            let (p_id, player) = players[p];
            assert(self@.has_player(ids[p as int]));
            proof {
                let before = starts;
                starts = starts.push(missiles@.len() as int);
                assert forall|k: int| 0 <= k < missiles@.len() implies listed(
                    self@,
                    ids,
                    starts,
                    owner,
                    missiles@,
                    k,
                ) by {
                    assert(listed(self@, ids, before, owner, missiles@, k));
                }
                assert forall|q: int, m: int|
                    0 <= q < p && 0 <= m < missile_count(self@, ids, q) implies placed(
                    ids,
                    starts,
                    missiles@,
                    q,
                    m,
                ) by {
                    assert(placed(ids, before, missiles@, q, m));
                }
            }
            let mut m_id: usize = 0;
            while m_id < player.missiles.len()
                invariant
                    p < players@.len(),
                    ids == players@.map_values(|e: (PlayerId, &PlayerState)| e.0),
                    ids[p as int] == p_id,
                    self@.has_player(p_id),
                    player.record() == self@.players[p_id],
                    m_id <= player.missiles@.len(),
                    starts.len() == p + 1,
                    owner.len() == missiles@.len(),
                    missiles@.len() == starts[p as int] + m_id,
                    forall|k: int|
                        0 <= k < missiles@.len() ==> listed(
                            self@,
                            ids,
                            starts,
                            owner,
                            missiles@,
                            k,
                        ),
                    forall|q: int, m: int|
                        0 <= q < p && 0 <= m < missile_count(self@, ids, q) ==> placed(
                            ids,
                            starts,
                            missiles@,
                            q,
                            m,
                        ),
                    forall|m: int| 0 <= m < m_id ==> placed(ids, starts, missiles@, p as int, m),
                decreases player.missiles@.len() - m_id,
            {
                let ghost before = missiles@;
                let ghost owner_before = owner;
                missiles.push((p_id, m_id, &player.missiles[m_id]));
                proof {
                    owner = owner.push(p as int);
                    assert forall|k: int| 0 <= k < missiles@.len() implies listed(
                        self@,
                        ids,
                        starts,
                        owner,
                        missiles@,
                        k,
                    ) by {
                        if k < before.len() {
                            assert(listed(self@, ids, starts, owner_before, before, k));
                        }
                    }
                    assert forall|q: int, m: int|
                        0 <= q < p && 0 <= m < missile_count(self@, ids, q) implies placed(
                        ids,
                        starts,
                        missiles@,
                        q,
                        m,
                    ) by {
                        assert(placed(ids, starts, before, q, m));
                    }
                    assert forall|m: int| 0 <= m < m_id + 1 implies placed(
                        ids,
                        starts,
                        missiles@,
                        p as int,
                        m,
                    ) by {
                        if m < m_id {
                            assert(placed(ids, starts, before, p as int, m));
                        }
                    }
                }
                m_id += 1;
            }
            p += 1;
        }
        proof {
            let keys = missiles@.map_values(|e: (PlayerId, MissileId, &MissileState)| (e.0, e.1));
            assert forall|i: int, j: int|
                0 <= i < keys.len() && 0 <= j < keys.len() && i != j implies keys[i] != keys[j] by {
                assert(listed(self@, ids, starts, owner, missiles@, i));
                assert(listed(self@, ids, starts, owner, missiles@, j));
                if keys[i] == keys[j] {
                }
            }
            assert forall|i: int| 0 <= i < keys.len() implies self@.has_missile(
                (#[trigger] keys[i]).0,
                keys[i].1,
            ) by {
                assert(listed(self@, ids, starts, owner, missiles@, i));
            }
            assert forall|id: PlayerId, m: MissileId| self@.has_missile(id, m) implies keys.contains(
                (id, m),
            ) by {
                let q = choose|q: int| 0 <= q < ids.len() && ids[q] == id;
                assert(placed(ids, starts, missiles@, q, m as int));
                let k = starts[q] + m;
                assert(keys[k] == (id, m));
            }
            assert forall|i: int| 0 <= i < missiles@.len() implies *(#[trigger] missiles@[i]).2
                == self@.players[missiles@[i].0].missiles[missiles@[i].1 as int] by {
                assert(listed(self@, ids, starts, owner, missiles@, i));
            }
        }
        missiles
    }

    /// Add a new Star
    pub fn add_star(&mut self, star: StarData)
        ensures
            final(self)@ == (World { stars: old(self)@.stars.push(star), ..old(self)@ }),
    {
        self.stars.push(star);
    }
}

impl PlayerMovementDataGateway for GameState {
    fn get_player_orientation(&self, id: PlayerIdData) -> (orientation: ScalarData) {
        self.get_player(&id).player_object.angle
    }

    fn set_player_orientation(&mut self, id: PlayerIdData, orientation: ScalarData) {
        let player = self.get_player_mut(&id);
        player.player_object.set_angle(orientation);
    }

    fn get_player_acceleration(&self, id: PlayerIdData) -> (acceleration: Vec2Data) {
        self.get_player(&id).player_object.acceleration
    }

    fn set_player_acceleration(&mut self, id: PlayerIdData, acceleration: Vec2Data) {
        let player = self.get_player_mut(&id);
        player.player_object.set_acceleration(acceleration);
    }
}

impl ShootDataGateway for GameState {
    fn get_player_pos_and_velocity(&self, id: PlayerIdData) -> (pose: PlayerPosAndVelocityData) {
        let MovingObject { position: pos, angle, velocity, acceleration: _ } = self.get_player(
            &id,
        ).player_object;
        PlayerPosAndVelocityData { pos, angle, velocity }
    }

    fn get_player_missile_count(&self, id: PlayerIdData) -> (count: usize) {
        self.get_player(&id).missiles.len()
    }

    fn create_missile_for_player(&mut self, id: PlayerIdData, missile: MissileLaunchData) {
        let mut missile_obj = MovingObject::default();
        missile_obj.set_position(missile.pos).set_angle(missile.angle).set_velocity(
            missile.velocity,
        );
        self.add_missile(&id, missile_obj);
    }
}

impl GravityDataGateway for GameState {
    fn get_stars_position_and_mass(&self) -> (stars: Vec<StarData>) {
        let stars = self.stars.clone();
        stars
    }

    fn get_player_pos_and_acc(&self) -> (list: Vec<PlayerPosAcc>) {
        let players = self.iter_player();
        let mut list: Vec<PlayerPosAcc> = Vec::new();
        for i in 0..players.len()
            invariant
                list@.len() == i,
                forall|k: int|
                    0 <= k < players@.len() ==> (#[trigger] players@[k]).1.record()
                        == self@.players[players@[k].0],
                forall|k: int|
                    0 <= k < i ==> #[trigger] list@[k] == (
                        players@[k].0,
                        players@[k].1.player_object.position,
                        players@[k].1.player_object.acceleration,
                    ),
        {
            let (id, p_state) = players[i];
            list.push((id, p_state.player_object.position, p_state.player_object.acceleration));
        }
        assert(list@.map_values(|e: PlayerPosAcc| e.0) =~= players@.map_values(
            |e: (PlayerId, &PlayerState)| e.0,
        ));
        list
    }

    fn get_missile_pos_and_acc(&self) -> (list: Vec<MissilePosAcc>) {
        let missiles = self.iter_missiles();
        let mut list: Vec<MissilePosAcc> = Vec::new();
        for i in 0..missiles.len()
            invariant
                list@.len() == i,
                forall|k: int|
                    0 <= k < i ==> #[trigger] list@[k] == (
                        missiles@[k].0,
                        missiles@[k].1,
                        missiles@[k].2.position,
                        missiles@[k].2.acceleration,
                    ),
        {
            let (p_id, m_id, missile) = missiles[i];
            list.push((p_id, m_id, missile.position, missile.acceleration));
        }
        assert(list@.map_values(|e: MissilePosAcc| (e.0, e.1)) =~= missiles@.map_values(
            |e: (PlayerId, MissileId, &MissileState)| (e.0, e.1),
        ));
        list
    }

    fn set_acceleration_for_player(&mut self, updates: Vec<(PlayerIdData, Vec2Data)>) {
        for i in 0..updates.len()
            invariant
                forall|k: int|
                    0 <= k < updates@.len() ==> old(self)@.has_player((#[trigger] updates@[k]).0),
                self@.players.dom() == old(self)@.players.dom(),
                self@ == old(self)@.with_accelerations(updates@.take(i as int)),
        {
            let (id, acceleration) = updates[i];
            self.set_player_acceleration(id, acceleration);
            proof {
                assert(updates@.take(i + 1).drop_last() =~= updates@.take(i as int));
            }
        }
        assert(updates@.take(updates@.len() as int) =~= updates@);
    }

    fn set_acceleration_for_missiles(
        &mut self,
        updates: Vec<(PlayerIdData, MissileIdData, Vec2Data)>,
    ) {
        for i in 0..updates.len()
            invariant
                forall|k: int|
                    0 <= k < updates@.len() ==> old(self)@.has_missile(
                        (#[trigger] updates@[k]).0,
                        updates@[k].1,
                    ),
                old(self)@.same_shape(self@),
                self@ == old(self)@.with_missile_accelerations(updates@.take(i as int)),
        {
            let (player_id, missile_id, acceleration) = updates[i];
            let ghost before = self@;
            let missile = self.get_missile_mut(&player_id, missile_id);
            missile.set_acceleration(acceleration);
            proof {
                assert(updates@.take(i + 1).drop_last() =~= updates@.take(i as int));
                assert(self@ == before.with_missile_acceleration(
                    player_id,
                    missile_id,
                    acceleration,
                ));
                assert(self@.players.dom() =~= before.players.dom());
            }
        }
        assert(updates@.take(updates@.len() as int) =~= updates@);
    }
}

impl IntegrateDataGateway for GameState {
    fn get_player_info(&self) -> (list: Vec<PlayerInfoData>) {
        let players = self.iter_player();
        let mut list: Vec<PlayerInfoData> = Vec::new();
        for i in 0..players.len()
            invariant
                list@.len() == i,
                forall|k: int|
                    0 <= k < i ==> #[trigger] list@[k] == (
                        players@[k].0,
                        players@[k].1.player_object.position,
                        players@[k].1.player_object.velocity,
                        players@[k].1.player_object.acceleration,
                    ),
        {
            let (id, player) = players[i];
            list.push(
                (
                    id,
                    player.player_object.position,
                    player.player_object.velocity,
                    player.player_object.acceleration,
                ),
            );
        }
        assert(list@.map_values(|e: PlayerInfoData| e.0) =~= players@.map_values(
            |e: (PlayerId, &PlayerState)| e.0,
        ));
        list
    }

    fn get_missile_info(&self) -> (list: Vec<MissileInfoData>) {
        let missiles = self.iter_missiles();
        let mut list: Vec<MissileInfoData> = Vec::new();
        for i in 0..missiles.len()
            invariant
                list@.len() == i,
                forall|k: int|
                    0 <= k < i ==> #[trigger] list@[k] == (
                        missiles@[k].0,
                        missiles@[k].1,
                        missiles@[k].2.position,
                        missiles@[k].2.velocity,
                        missiles@[k].2.acceleration,
                    ),
        {
            let (p_id, m_id, missile) = missiles[i];
            list.push((p_id, m_id, missile.position, missile.velocity, missile.acceleration));
        }
        assert(list@.map_values(|e: MissileInfoData| (e.0, e.1)) =~= missiles@.map_values(
            |e: (PlayerId, MissileId, &MissileState)| (e.0, e.1),
        ));
        list
    }

    fn set_player_info(&mut self, data: Vec<PlayerInfoData>) {
        for i in 0..data.len()
            invariant
                forall|k: int|
                    0 <= k < data@.len() ==> old(self)@.has_player((#[trigger] data@[k]).0),
                self@.players.dom() == old(self)@.players.dom(),
                self@ == old(self)@.with_motions(data@.take(i as int)),
        {
            let (p_id, pos, vel, acc) = data[i];
            let player = self.get_player_mut(&p_id);
            player.player_object.set_position(pos).set_velocity(vel).set_acceleration(acc);
            proof {
                assert(data@.take(i + 1).drop_last() =~= data@.take(i as int));
            }
        }
        assert(data@.take(data@.len() as int) =~= data@);
    }

    fn set_missile_info(&mut self, data: Vec<MissileInfoData>) {
        for i in 0..data.len()
            invariant
                forall|k: int|
                    0 <= k < data@.len() ==> old(self)@.has_missile(
                        (#[trigger] data@[k]).0,
                        data@[k].1,
                    ),
                old(self)@.same_shape(self@),
                self@ == old(self)@.with_missile_motions(data@.take(i as int)),
        {
            let (player_id, missile_id, pos, vel, acc) = data[i];
            let ghost before = self@;
            let missile = self.get_missile_mut(&player_id, missile_id);
            missile.set_position(pos).set_velocity(vel).set_acceleration(acc);
            proof {
                assert(data@.take(i + 1).drop_last() =~= data@.take(i as int));
                assert(self@.players.dom() =~= before.players.dom());
                assert(forall|id: PlayerIdData| #[trigger]
                    old(self)@.has_player(id) ==> old(self)@.players[id].missiles.len()
                        == self@.players[id].missiles.len());
            }
        }
        assert(data@.take(data@.len() as int) =~= data@);
    }
}

impl InGameState for GameState {

}

} // verus!
