use genocide::d2::area::{Level, NearRoom, RevealTarget, RoomEx, RoomRevealStep};
use genocide::d2::unit::{is_hireling_class, PlayerClass, Unit, UnitType};

fn unit(unit_type: UnitType, class_id: u32, unit_id: u32, mode: u32) -> Unit {
    Unit {
        unit_type,
        class_id,
        unit_id,
        mode,
        act_id: 0,
        seed: [0, 0],
        gfx_frame: 0,
        frame_remain: 0,
        frame_rate: 0,
        x: 0,
        y: 0,
        owner_type: 0,
        owner_id: 0,
        flags: 0,
        flags_2: 0,
    }
}

#[test]
fn player_class_only_for_players() {
    assert_eq!(unit(UnitType::Player, 0, 1, 0).get_player_class(), Some(PlayerClass::Amazon));
    assert_eq!(unit(UnitType::Player, 6, 1, 0).get_player_class(), Some(PlayerClass::Assassin));
    assert_eq!(unit(UnitType::Player, 3, 1, 0).get_player_class(), Some(PlayerClass::Paladin));
    assert_eq!(unit(UnitType::Monster, 3, 1, 0).get_player_class(), None);
}

#[test]
fn objects_and_items_have_static_positions() {
    assert!(unit(UnitType::Object, 0, 0, 0).pos_is_static());
    assert!(unit(UnitType::Item, 0, 0, 0).pos_is_static());
    assert!(!unit(UnitType::Player, 0, 0, 0).pos_is_static());
    assert!(!unit(UnitType::Monster, 0, 0, 0).pos_is_static());
}

#[test]
fn merc_is_first_living_hireling_of_player() {
    let player = unit(UnitType::Player, 1, 7, 1);
    let units = vec![
        unit(UnitType::Monster, 0x0152, 20, 1), // hireling of someone else
        unit(UnitType::Monster, 0x010f, 21, 12), // dead hireling
        unit(UnitType::Monster, 0x0150, 22, 1), // not a hireling class
        unit(UnitType::Monster, 0x0167, 23, 0), // dying hireling
        unit(UnitType::Monster, 0x0231, 24, 2), // this one
        unit(UnitType::Monster, 0x0152, 25, 1),
    ];
    let owners = vec![8, 7, 7, 7, 7, 7];
    assert_eq!(player.get_player_merc(&units, &owners), Some(4));
    assert_eq!(player.get_player_merc(&units[..4].to_vec(), &owners[..4].to_vec()), None);
    let monster = unit(UnitType::Monster, 1, 7, 1);
    assert_eq!(monster.get_player_merc(&units, &owners), None);
}

fn room(room_loaded: bool, near: Vec<NearRoom>) -> RoomEx {
    RoomEx { pos_x: 0, pos_y: 0, size_x: 8, size_y: 8, preset_type: 0, room_loaded, near }
}

#[test]
fn room_reveal_adds_and_removes_data_when_missing() {
    let r = room(false, vec![]);
    assert!(r.init());
    assert_eq!(r.reveal_steps(true), vec![RoomRevealStep::RevealRoom, RoomRevealStep::RemoveRoomData]);
    assert_eq!(r.reveal_steps(false), vec![]);
    let loaded = room(true, vec![]);
    assert!(!loaded.init());
    assert_eq!(loaded.reveal_steps(true), vec![RoomRevealStep::RevealRoom]);
}

#[test]
fn level_reveals_rooms_and_foreign_generated_neighbours() {
    let level = Level {
        pos_x: 0,
        pos_y: 0,
        size_x: 10,
        size_y: 10,
        level_no: 5,
        rooms: vec![
            room(true, vec![
                NearRoom { level_no: 5, level_initialized: true },
                NearRoom { level_no: 6, level_initialized: true },
                NearRoom { level_no: 7, level_initialized: false },
            ]),
            room(false, vec![]),
            room(true, vec![NearRoom { level_no: 4, level_initialized: true }]),
        ],
    };
    assert!(level.initialized());
    assert_eq!(
        level.reveal_targets(),
        vec![
            RevealTarget::Room { room: 0 },
            RevealTarget::Neighbour { room: 0, near: 1 },
            RevealTarget::Room { room: 1 },
            RevealTarget::Room { room: 2 },
            RevealTarget::Neighbour { room: 2, near: 0 },
        ]
    );
}

#[test]
fn neighbour_revealed_only_in_other_generated_level() {
    assert!(NearRoom { level_no: 6, level_initialized: true }.revealed_with(5));
    assert!(!NearRoom { level_no: 5, level_initialized: true }.revealed_with(5));
    assert!(!NearRoom { level_no: 6, level_initialized: false }.revealed_with(5));
    assert!(!NearRoom { level_no: 5, level_initialized: false }.revealed_with(5));
}

#[test]
fn ungenerated_level_reveals_nothing() {
    let level = Level { pos_x: 0, pos_y: 0, size_x: 0, size_y: 0, level_no: 1, rooms: vec![] };
    assert!(!level.initialized());
    assert!(level.reveal_targets().is_empty());
}

#[test]
fn hireling_classes() {
    for c in [0x010f, 0x0152, 0x0167, 0x0231] {
        assert!(is_hireling_class(c));
    }
    assert!(!is_hireling_class(0x0150));
    assert!(!is_hireling_class(0));
}
