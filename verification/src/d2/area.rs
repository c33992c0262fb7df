use vstd::prelude::*;

use crate::d2::unit::UnitType;

verus! {

/// A unit that the level generator placed in a room.
#[derive(Debug, Clone, Copy, PartialEq, Eq, Structural)]
pub struct PresetUnit {
    pub text_file_no: u32,
    pub pos_x: u32,
    pub preset_type: UnitType,
    pub pos_y: u32,
}

/// The position and size of a room's collision map, in game and room units.
#[derive(Debug, Clone, Copy, PartialEq, Eq, Structural)]
pub struct CollisionMap {
    pub pos_game_x: u32,
    pub pos_game_y: u32,
    pub size_game_x: u32,
    pub size_game_y: u32,
    pub pos_room_x: u32,
    pub pos_room_y: u32,
    pub size_room_x: u32,
    pub size_room_y: u32,
}

/// A room adjacent to another one, as the reveal logic sees it: the level
/// it belongs to and whether that level has been generated.
#[derive(Debug, Clone, Copy, PartialEq, Eq, Structural)]
pub struct NearRoom {
    pub level_no: u32,
    pub level_initialized: bool,
}

/// A room of a level: its place, whether its room data is loaded, and the
/// rooms next to it (in the game's order).
#[derive(Debug)]
pub struct RoomEx {
    pub pos_x: u32,
    pub pos_y: u32,
    pub size_x: u32,
    pub size_y: u32,
    pub preset_type: u32,
    pub room_loaded: bool,
    pub near: Vec<NearRoom>,
}

/// A level: its place, number, and rooms (in the game's order).
#[derive(Debug)]
pub struct Level {
    pub pos_x: u32,
    pub pos_y: u32,
    pub size_x: u32,
    pub size_y: u32,
    pub level_no: u32,
    pub rooms: Vec<RoomEx>,
}

/// A step of revealing one room once its data is present.
#[derive(Debug, Clone, Copy, PartialEq, Eq, Structural)]
pub enum RoomRevealStep {
    /// Reveal the room on the automap.
    RevealRoom,
    /// Remove the room data that was added for the reveal.
    RemoveRoomData,
}

/// A room to reveal while revealing a level.
#[derive(Debug, Clone, Copy, PartialEq, Eq, Structural)]
pub enum RevealTarget {
    /// Room `room` of the level.
    Room { room: usize },
    /// The adjacent room `near` of room `room` of the level.
    Neighbour { room: usize, near: usize },
}

/// A neighbour is revealed with the level when it lies in another level
/// that has been generated.
pub open spec fn reveals_neighbour(level_no: u32, n: NearRoom) -> bool {
    n.level_no != level_no && n.level_initialized
}

/// The neighbours of room `room` to reveal, in the order of `near`.
pub open spec fn neighbour_targets(level_no: u32, room: int, near: Seq<NearRoom>) -> Seq<RevealTarget>
    decreases near.len(),
{
    if near.len() == 0 {
        Seq::empty()
    } else {
        let rest = neighbour_targets(level_no, room, near.drop_last());
        if reveals_neighbour(level_no, near.last()) {
            rest.push(RevealTarget::Neighbour { room: room as usize, near: (near.len() - 1) as usize })
        } else {
            rest
        }
    }
}

/// What revealing a level reveals, in order: each room, followed by its
/// neighbours that `reveals_neighbour` selects.
pub open spec fn level_targets(level_no: u32, near_lists: Seq<Seq<NearRoom>>) -> Seq<RevealTarget>
    decreases near_lists.len(),
{
    if near_lists.len() == 0 {
        Seq::empty()
    } else {
        let i = near_lists.len() - 1;
        level_targets(level_no, near_lists.drop_last()).push(RevealTarget::Room { room: i as usize })
            + neighbour_targets(level_no, i, near_lists.last())
    }
}

/// The neighbour lists of the rooms of a level, by value.
pub open spec fn near_lists(rooms: Seq<RoomEx>) -> Seq<Seq<NearRoom>> {
    rooms.map_values(|r: RoomEx| r.near@)
}

/// Every neighbour target of a room names that room and one of its
/// neighbours that `reveals_neighbour` selects.
proof fn lemma_neighbour_targets_selected(level_no: u32, room: int, near: Seq<NearRoom>)
    requires
        0 <= room <= usize::MAX,
        near.len() <= usize::MAX,
    ensures
        forall|k: int|
            0 <= k < neighbour_targets(level_no, room, near).len() ==> match #[trigger] neighbour_targets(level_no, room, near)[k] {
                RevealTarget::Neighbour { room: r, near: j } => {
                    &&& r == room
                    &&& j < near.len()
                    &&& reveals_neighbour(level_no, near[j as int])
                },
                _ => false,
            },
    decreases near.len(),
{
    if near.len() > 0 {
        let rest = neighbour_targets(level_no, room, near.drop_last());
        let all = neighbour_targets(level_no, room, near);
        lemma_neighbour_targets_selected(level_no, room, near.drop_last());
        assert forall|k: int| 0 <= k < all.len() implies match #[trigger] all[k] {
            RevealTarget::Neighbour { room: r, near: j } => {
                &&& r == room
                &&& j < near.len()
                &&& reveals_neighbour(level_no, near[j as int])
            },
            _ => false,
        } by {
            if k < rest.len() {
                assert(all[k] == rest[k]);
                match rest[k] {
                    RevealTarget::Neighbour { room: r, near: j } => {
                        assert(near.drop_last()[j as int] == near[j as int]);
                    },
                    _ => {},
                }
            }
        }
    }
}

/// Every neighbour of a room that lies in another level, one that has been
/// generated, is among the room's neighbour targets.
proof fn lemma_neighbour_targets_complete(level_no: u32, room: int, near: Seq<NearRoom>)
    requires
        0 <= room <= usize::MAX,
        near.len() <= usize::MAX,
    ensures
        forall|j: int|
            0 <= j < near.len() && (#[trigger] near[j]).level_no != level_no && near[j].level_initialized
                ==> neighbour_targets(level_no, room, near).contains(
                RevealTarget::Neighbour { room: room as usize, near: j as usize },
            ),
    decreases near.len(),
{
    if near.len() > 0 {
        let rest = neighbour_targets(level_no, room, near.drop_last());
        let all = neighbour_targets(level_no, room, near);
        lemma_neighbour_targets_complete(level_no, room, near.drop_last());
        assert forall|j: int|
            0 <= j < near.len() && (#[trigger] near[j]).level_no != level_no && near[j].level_initialized
                implies all.contains(RevealTarget::Neighbour { room: room as usize, near: j as usize }) by {
            let t = RevealTarget::Neighbour { room: room as usize, near: j as usize };
            if j == near.len() - 1 {
                assert(all == rest.push(t));
                assert(all[rest.len() as int] == t);
            } else {
                assert(near.drop_last()[j] == near[j]);
                assert(rest.contains(t));
                let k = choose|k: int| 0 <= k < rest.len() && rest[k] == t;
                assert(all[k] == rest[k]);
            }
        }
    }
}

/// Revealing a level reveals every neighbour of each of its rooms that
/// lies in another level, one that has been generated: none of them is
/// left out.
pub proof fn lemma_every_foreign_generated_neighbour_revealed(level_no: u32, lists: Seq<Seq<NearRoom>>)
    requires
        lists.len() <= usize::MAX,
        forall|i: int| 0 <= i < lists.len() ==> (#[trigger] lists[i]).len() <= usize::MAX,
    ensures
        forall|i: int, j: int|
            0 <= i < lists.len() && 0 <= j < lists[i].len() && (#[trigger] lists[i][j]).level_no != level_no
                && lists[i][j].level_initialized ==> level_targets(level_no, lists).contains(
                RevealTarget::Neighbour { room: i as usize, near: j as usize },
            ),
    decreases lists.len(),
{
    if lists.len() > 0 {
        let n = lists.len() - 1;
        let before = level_targets(level_no, lists.drop_last());
        let prefix = before.push(RevealTarget::Room { room: n as usize });
        let tail = neighbour_targets(level_no, n, lists.last());
        let all = level_targets(level_no, lists);
        assert(all == prefix + tail);
        lemma_every_foreign_generated_neighbour_revealed(level_no, lists.drop_last());
        lemma_neighbour_targets_complete(level_no, n, lists.last());
        assert forall|i: int, j: int|
            0 <= i < lists.len() && 0 <= j < lists[i].len() && (#[trigger] lists[i][j]).level_no != level_no
                && lists[i][j].level_initialized implies all.contains(
            RevealTarget::Neighbour { room: i as usize, near: j as usize },
        ) by {
            let t = RevealTarget::Neighbour { room: i as usize, near: j as usize };
            if i == n {
                assert(lists.last()[j] == lists[i][j]);
                assert(tail.contains(t));
                let k = choose|k: int| 0 <= k < tail.len() && tail[k] == t;
                assert(all[prefix.len() + k] == tail[k]);
            } else {
                assert(lists.drop_last()[i] == lists[i]);
                assert(lists.drop_last()[i][j] == lists[i][j]);
                assert(before.contains(t));
                let k = choose|k: int| 0 <= k < before.len() && before[k] == t;
                assert(all[k] == before[k]);
            }
        }
    }
}

/// Revealing a level reveals every one of its rooms.
pub proof fn lemma_every_room_revealed(level_no: u32, lists: Seq<Seq<NearRoom>>)
    requires
        lists.len() <= usize::MAX,
    ensures
        forall|i: usize| i < lists.len() ==> #[trigger] level_targets(level_no, lists).contains(RevealTarget::Room { room: i }),
    decreases lists.len(),
{
    if lists.len() > 0 {
        let n = lists.len() - 1;
        let prefix = level_targets(level_no, lists.drop_last()).push(RevealTarget::Room { room: n as usize });
        let all = level_targets(level_no, lists);
        assert(all == prefix + neighbour_targets(level_no, n, lists.last()));
        lemma_every_room_revealed(level_no, lists.drop_last());
        assert forall|i: usize| i < lists.len() implies #[trigger] all.contains(RevealTarget::Room { room: i }) by {
            if i == n {
                assert(all[prefix.len() - 1] == RevealTarget::Room { room: i });
            } else {
                let before = level_targets(level_no, lists.drop_last());
                assert(before.contains(RevealTarget::Room { room: i }));
                let k = choose|k: int| 0 <= k < before.len() && before[k] == RevealTarget::Room { room: i };
                assert(all[k] == before[k]);
            }
        }
    }
}

/// Revealing a level reveals no neighbour that lies in the same level or
/// in a level that has not been generated: every neighbour it reveals is
/// an existing neighbour of an existing room, selected by `reveals_neighbour`.
pub proof fn lemma_only_foreign_generated_neighbours(level_no: u32, lists: Seq<Seq<NearRoom>>)
    requires
        lists.len() <= usize::MAX,
        forall|i: int| 0 <= i < lists.len() ==> (#[trigger] lists[i]).len() <= usize::MAX,
    ensures
        forall|k: int|
            0 <= k < level_targets(level_no, lists).len() ==> match #[trigger] level_targets(level_no, lists)[k] {
                RevealTarget::Neighbour { room: r, near: j } => {
                    &&& r < lists.len()
                    &&& j < lists[r as int].len()
                    &&& reveals_neighbour(level_no, lists[r as int][j as int])
                },
                RevealTarget::Room { room: r } => r < lists.len(),
            },
    decreases lists.len(),
{
    if lists.len() > 0 {
        let n = lists.len() - 1;
        let before = level_targets(level_no, lists.drop_last());
        let prefix = before.push(RevealTarget::Room { room: n as usize });
        let tail = neighbour_targets(level_no, n, lists.last());
        let all = level_targets(level_no, lists);
        assert(all == prefix + tail);
        lemma_only_foreign_generated_neighbours(level_no, lists.drop_last());
        lemma_neighbour_targets_selected(level_no, n, lists.last());
        assert forall|k: int| 0 <= k < all.len() implies match #[trigger] all[k] {
            RevealTarget::Neighbour { room: r, near: j } => {
                &&& r < lists.len()
                &&& j < lists[r as int].len()
                &&& reveals_neighbour(level_no, lists[r as int][j as int])
            },
            RevealTarget::Room { room: r } => r < lists.len(),
        } by {
            if k < before.len() {
                assert(all[k] == before[k]);
                match before[k] {
                    RevealTarget::Neighbour { room: r, near: j } => {
                        assert(lists.drop_last()[r as int] == lists[r as int]);
                    },
                    _ => {},
                }
            } else if k == before.len() {
            } else {
                assert(all[k] == tail[k - prefix.len()]);
            }
        }
    }
}

impl RoomEx {
    /// Whether the room's data must be added before revealing it (it is
    /// not loaded); such data is removed again after the reveal.
    pub fn init(&self) -> (res: bool)
        ensures
            res == !self.room_loaded,
    {
        !self.room_loaded
    }

    /// The steps that reveal the room once `init` has been acted on:
    /// nothing when the room is still absent, else revealing it and, when
    /// its data was added for the purpose, removing that data again.
    pub fn reveal_steps(&self, room_present: bool) -> (res: Vec<RoomRevealStep>)
        ensures
            res@ == if room_present {
                if self.room_loaded {
                    seq![RoomRevealStep::RevealRoom]
                } else {
                    seq![RoomRevealStep::RevealRoom, RoomRevealStep::RemoveRoomData]
                }
            } else {
                Seq::empty()
            },
    {
        let reveal_data = self.init();
        let mut steps: Vec<RoomRevealStep> = Vec::new();
        if room_present {
            steps.push(RoomRevealStep::RevealRoom);
            if reveal_data {
                steps.push(RoomRevealStep::RemoveRoomData);
            }
        }
        assert(steps@ =~= if room_present {
            if self.room_loaded {
                seq![RoomRevealStep::RevealRoom]
            } else {
                seq![RoomRevealStep::RevealRoom, RoomRevealStep::RemoveRoomData]
            }
        } else {
            Seq::<RoomRevealStep>::empty()
        });
        steps
    }
}

impl NearRoom {
    /// Whether this neighbour is revealed along with a room of level
    /// `level_no`: it lies in another level, and that level has been
    /// generated.
    pub fn revealed_with(&self, level_no: u32) -> (res: bool)
        ensures
            res == reveals_neighbour(level_no, *self),
    {
        self.level_no != level_no && self.level_initialized
    }
}

impl Level {
    /// Whether the level has been generated (it has rooms).
    pub fn initialized(&self) -> (res: bool)
        ensures
            res == (self.rooms@.len() > 0),
    {
        self.rooms.len() > 0
    }

    /// The rooms to reveal, in order: every room of the level, each
    /// followed by its neighbours that lie in other, generated levels. This
    /// is the whole reveal of the level as seen in one snapshot of it; when
    /// revealing rooms changes which levels are generated, a caller walking
    /// the live level decides each neighbour with `NearRoom::revealed_with`
    /// as it reaches it.
    pub fn reveal_targets(&self) -> (res: Vec<RevealTarget>)
        ensures
            res@ == level_targets(self.level_no, near_lists(self.rooms@)),
            forall|i: usize| i < self.rooms@.len() ==> #[trigger] res@.contains(RevealTarget::Room { room: i }),
            forall|i: int, j: int|
                0 <= i < self.rooms@.len() && 0 <= j < self.rooms@[i].near@.len()
                    && (#[trigger] self.rooms@[i].near@[j]).level_no != self.level_no
                    && self.rooms@[i].near@[j].level_initialized ==> res@.contains(
                    RevealTarget::Neighbour { room: i as usize, near: j as usize },
                ),
    {
        let ghost lists = near_lists(self.rooms@);
        let mut res: Vec<RevealTarget> = Vec::new();
        if !self.initialized() {
            assert(lists =~= Seq::<Seq<NearRoom>>::empty());
            return res;
        }
        let mut i: usize = 0;
        while i < self.rooms.len()
            invariant
                i <= self.rooms@.len(),
                lists == near_lists(self.rooms@),
                res@ == level_targets(self.level_no, lists.take(i as int)),
            decreases self.rooms@.len() - i,
        {
            let room = &self.rooms[i];
            let ghost before = res@;
            res.push(RevealTarget::Room { room: i });
            let mut j: usize = 0;
            while j < room.near.len()
                invariant
                    j <= room.near@.len(),
                    res@ == before.push(RevealTarget::Room { room: i }) + neighbour_targets(
                        self.level_no,
                        i as int,
                        room.near@.take(j as int),
                    ),
                decreases room.near@.len() - j,
            {
                let near = room.near[j];
                let ghost prev = res@;
                if near.revealed_with(self.level_no) {
                    res.push(RevealTarget::Neighbour { room: i, near: j });
                }
                assert(room.near@.take(j + 1).drop_last() =~= room.near@.take(j as int));
                j = j + 1;
                assert(res@ =~= before.push(RevealTarget::Room { room: i }) + neighbour_targets(
                    self.level_no,
                    i as int,
                    room.near@.take(j as int),
                ));
            }
            assert(room.near@.take(j as int) =~= room.near@);
            assert(lists.take(i + 1).drop_last() =~= lists.take(i as int));
            assert(lists.take(i + 1).last() == room.near@);
            i = i + 1;
        }
        assert(lists.take(i as int) =~= lists);
        proof {
            assert forall|k: int| 0 <= k < lists.len() implies (#[trigger] lists[k]).len() <= usize::MAX by {
                assert(lists[k] == self.rooms@[k].near@);
                assert(self.rooms@[k].near.len() == self.rooms@[k].near@.len());
            }
            lemma_every_room_revealed(self.level_no, lists);
            lemma_every_foreign_generated_neighbour_revealed(self.level_no, lists);
            assert forall|a: int, b: int|
                0 <= a < self.rooms@.len() && 0 <= b < self.rooms@[a].near@.len()
                    && (#[trigger] self.rooms@[a].near@[b]).level_no != self.level_no
                    && self.rooms@[a].near@[b].level_initialized implies res@.contains(
                RevealTarget::Neighbour { room: a as usize, near: b as usize },
            ) by {
                assert(lists[a] == self.rooms@[a].near@);
                assert(lists[a][b] == self.rooms@[a].near@[b]);
            }
        }
        res
    }
}

} // verus!
