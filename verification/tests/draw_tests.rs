use genocide::config::settings::ChickenSettings;
use genocide::d2::draw::{prepare_hashmap, Alignment, Draw, DrawCommand, GameStatus, TextColor, Transparency};
use genocide::d2::game::{is_nul_free, print, MessageChannel};
use genocide::utils::decimal::decimal_string;

fn text_of(c: &DrawCommand) -> (String, i32, i32, i32, u8) {
    match c {
        DrawCommand::Text { text, x, y, color, font } => (text.clone(), *x, *y, *color, *font),
        _ => panic!("not a text command"),
    }
}

#[test]
fn font_heights_match_game_table() {
    let expected = [10u32, 11, 18, 24, 10, 13, 7, 13, 10, 12, 8, 8, 7, 12];
    for (font, h) in expected.iter().enumerate() {
        assert_eq!(Draw::text_height_by_font(font as u8), *h);
    }
}

#[test]
fn colour_and_mode_codes() {
    assert_eq!(TextColor::White.code(), 0);
    assert_eq!(TextColor::Purple.code(), 11);
    assert_eq!(TextColor::Silver.code(), 15);
    assert_eq!(Alignment::Unaligned.code(), 0);
    assert_eq!(Alignment::Right.code(), 2);
    assert_eq!(Alignment::Top.code(), 4);
    assert_eq!(Transparency::Full.code(), 8);
}

#[test]
fn unaligned_text_keeps_x_and_drops_by_font_height() {
    let c = Draw::draw_text(100, 50, TextColor::Gold, Alignment::Unaligned, 3, "hello", 80);
    assert_eq!(text_of(&c), ("hello".to_string(), 100, 74, 4, 3));
}

#[test]
fn centred_text_moves_left_by_half_width() {
    let c = Draw::draw_text(100, 0, TextColor::White, Alignment::Center, 0, "x", 101);
    assert_eq!(text_of(&c).1, 50);
    let c = Draw::draw_text(100, 0, TextColor::White, Alignment::Center, 0, "x", 80);
    assert_eq!(text_of(&c).1, 60);
}

#[test]
fn right_aligned_text_moves_left_by_width() {
    let c = Draw::draw_text(100, 0, TextColor::White, Alignment::Right, 0, "x", 80);
    assert_eq!(text_of(&c).1, 20);
    let c = Draw::draw_text(100, 0, TextColor::White, Alignment::Top, 0, "x", 80);
    assert_eq!(text_of(&c).1, 100);
}

#[test]
fn widths_above_i32_max_read_as_negative() {
    // 0xFFFF_FFFF reads as -1: half of it rounds to 0, the whole moves right by 1.
    let c = Draw::draw_text(10, 0, TextColor::White, Alignment::Center, 0, "x", 0xFFFF_FFFF);
    assert_eq!(text_of(&c).1, 10);
    let c = Draw::draw_text(10, 0, TextColor::White, Alignment::Right, 0, "x", 0xFFFF_FFFF);
    assert_eq!(text_of(&c).1, 11);
    let c = Draw::draw_text(10, 0, TextColor::White, Alignment::Center, 0, "x", 0xFFFF_FFFD);
    assert_eq!(text_of(&c).1, 11);
}

#[test]
fn box_and_line_commands() {
    match Draw::draw_box(10, 20, 30, 40, 7, Transparency::Half) {
        DrawCommand::Rectangle { x1, y1, x2, y2, color, transparency } => {
            assert_eq!((x1, y1, x2, y2, color, transparency), (10, 20, 40, 60, 7, 1));
        }
        _ => panic!("not a rectangle"),
    }
    match Draw::draw_line(1, 2, 3, 4, 5) {
        DrawCommand::Line { x1, y1, x2, y2, color } => assert_eq!((x1, y1, x2, y2, color), (1, 2, 3, 4, 5)),
        _ => panic!("not a line"),
    }
}

#[test]
fn bordered_box_outlines_the_filled_box() {
    let cmds = Draw::draw_bordered_box(10, 20, 30, 40, 1, 2, Transparency::Normal);
    assert_eq!(cmds.len(), 5);
    let lines: Vec<(u32, u32, u32, u32)> = cmds[1..]
        .iter()
        .map(|c| match c {
            DrawCommand::Line { x1, y1, x2, y2, color } => {
                assert_eq!(*color, 1);
                (*x1, *y1, *x2, *y2)
            }
            _ => panic!("not a line"),
        })
        .collect();
    assert_eq!(lines, vec![(10, 20, 40, 20), (10, 20, 10, 60), (40, 20, 40, 60), (10, 60, 40, 60)]);
    match &cmds[0] {
        DrawCommand::Rectangle { x1, y1, x2, y2, color, transparency } => {
            assert_eq!((*x1, *y1, *x2, *y2, *color, *transparency), (10, 20, 40, 60, 2, 5));
        }
        _ => panic!("not a rectangle"),
    }
}

#[test]
fn decimal_strings_match_to_string() {
    for v in [0i64, 7, 10, 99, 100, -1, -42, 2147483647, -2147483648, i64::MAX, i64::MIN] {
        assert_eq!(decimal_string(v), v.to_string());
    }
}

fn status() -> GameStatus {
    GameStatus {
        game_name: "baal-run".to_string(),
        game_password: "pw".to_string(),
        fps: 25,
        ping: 120,
        skip: 0,
        difficulty: "Hell".to_string(),
        area_name: "Worldstone Keep".to_string(),
        life_percent: 87,
        mana_percent: 100,
    }
}

#[test]
fn variables_need_a_player() {
    assert!(prepare_hashmap(&None, &ChickenSettings {
        town_life: 0,
        town_mana: 0,
        exit_life: 0,
        exit_mana: 0,
        potion_life: 0,
        rejuv_life: 0,
        potion_mana: 0,
        rejuv_mana: 0,
    })
    .is_none());
}

#[test]
fn variables_show_thresholds_or_off() {
    let settings = ChickenSettings {
        town_life: 40,
        town_mana: -1,
        exit_life: 15,
        exit_mana: -1,
        potion_life: 0,
        rejuv_life: -3,
        potion_mana: 30,
        rejuv_mana: -1,
    };
    let vars = prepare_hashmap(&Some(status()), &settings).unwrap();
    let expected: Vec<(&str, &str)> = vec![
        ("game_name", "baal-run"),
        ("game_password", "pw"),
        ("fps", "25"),
        ("ping", "120"),
        ("skip", "0"),
        ("game_difficulty", "Hell"),
        ("area_name", "Worldstone Keep"),
        ("town_life", "40"),
        ("town_mana", "Off"),
        ("exit_life", "15"),
        ("exit_mana", "Off"),
        ("potion_life", "0"),
        ("rejuv_life", "Off"),
        ("potion_mana", "30"),
        ("rejuv_mana", "Off"),
        ("life_percent", "87"),
        ("mana_percent", "100"),
    ];
    let got: Vec<(&str, &str)> = vars.iter().map(|(k, v)| (k.as_str(), v.as_str())).collect();
    assert_eq!(got, expected);
    let mut names: Vec<&str> = got.iter().map(|(k, _)| *k).collect();
    names.sort();
    names.dedup();
    assert_eq!(names.len(), 17);
}

#[test]
fn print_skips_empty_messages() {
    assert!(print(true, TextColor::Red, "").is_none());
}

#[test]
fn print_picks_channel_by_position() {
    let m = print(true, TextColor::Red, "chicken!").unwrap();
    assert_eq!(m.channel, MessageChannel::Party);
    assert_eq!(m.color, 1);
    assert_eq!(m.text, "chicken!");
    let m = print(false, TextColor::Silver, "hi").unwrap();
    assert_eq!(m.channel, MessageChannel::Game);
    assert_eq!(m.color, 15);
}

#[test]
fn can_draw_text_matches_draw_text_limits() {
    assert!(Draw::can_draw_text(100, 50, Alignment::Center, 13, "ok", 80));
    assert!(!Draw::can_draw_text(100, 50, Alignment::Center, 14, "ok", 80));
    assert!(!Draw::can_draw_text(100, 50, Alignment::Center, 13, "a\0b", 80));
    assert!(!Draw::can_draw_text(i32::MIN, 0, Alignment::Right, 0, "ok", 1));
    assert!(Draw::can_draw_text(i32::MIN, 0, Alignment::Unaligned, 0, "ok", 1));
    assert!(!Draw::can_draw_text(0, i32::MAX, Alignment::Unaligned, 0, "ok", 1));
}

#[test]
fn nul_characters_are_detected() {
    assert!(is_nul_free(""));
    assert!(is_nul_free("chicken!"));
    assert!(!is_nul_free("a\0b"));
    assert!(!is_nul_free("\0"));
}
