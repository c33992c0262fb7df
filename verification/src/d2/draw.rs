use vstd::prelude::*;
use vstd::string::StringExecFns;

use crate::config::settings::ChickenSettings;
use crate::d2::game::{is_nul_free, nul_free};
use crate::memory::patch::signed32;
use crate::utils::decimal::{decimal, decimal_string};

verus! {

/// The game's text colours.
#[derive(Debug, Clone, Copy, PartialEq, Eq, Structural)]
pub enum TextColor {
    White,
    Red,
    Green,
    Blue,
    Gold,
    Gray,
    Black,
    Tan,
    Orange,
    Yellow,
    DarkGreen,
    Purple,
    Silver,
}

/// How text is placed relative to its x coordinate.
#[derive(Debug, Clone, Copy, PartialEq, Eq, Structural)]
pub enum Alignment {
    /// The text starts at x (the game's alignment 0).
    Unaligned,
    Center,
    Right,
    Top,
}

/// The game's blending modes for boxes.
#[derive(Debug, Clone, Copy, PartialEq, Eq, Structural)]
pub enum Transparency {
    ThreeFourths,
    Half,
    OneFourth,
    White,
    Black,
    Normal,
    Screen,
    Highlight,
    Full,
}

impl TextColor {
    /// The game's number for the colour.
    pub open spec fn spec_code(self) -> i32 {
        match self {
            TextColor::White => 0,
            TextColor::Red => 1,
            TextColor::Green => 2,
            TextColor::Blue => 3,
            TextColor::Gold => 4,
            TextColor::Gray => 5,
            TextColor::Black => 6,
            TextColor::Tan => 7,
            TextColor::Orange => 8,
            TextColor::Yellow => 9,
            TextColor::DarkGreen => 10,
            TextColor::Purple => 11,
            TextColor::Silver => 15,
        }
    }

    /// The game's number for the colour.
    pub fn code(self) -> (res: i32)
        ensures
            res == self.spec_code(),
            res == (match self {
                TextColor::White => 0i32,
                TextColor::Red => 1i32,
                TextColor::Green => 2i32,
                TextColor::Blue => 3i32,
                TextColor::Gold => 4i32,
                TextColor::Gray => 5i32,
                TextColor::Black => 6i32,
                TextColor::Tan => 7i32,
                TextColor::Orange => 8i32,
                TextColor::Yellow => 9i32,
                TextColor::DarkGreen => 10i32,
                TextColor::Purple => 11i32,
                TextColor::Silver => 15i32,
            }),
    {
        match self {
            TextColor::White => 0,
            TextColor::Red => 1,
            TextColor::Green => 2,
            TextColor::Blue => 3,
            TextColor::Gold => 4,
            TextColor::Gray => 5,
            TextColor::Black => 6,
            TextColor::Tan => 7,
            TextColor::Orange => 8,
            TextColor::Yellow => 9,
            TextColor::DarkGreen => 10,
            TextColor::Purple => 11,
            TextColor::Silver => 15,
        }
    }
}

impl Alignment {
    /// The game's number for the alignment.
    pub open spec fn spec_code(self) -> u8 {
        match self {
            Alignment::Unaligned => 0,
            Alignment::Center => 1,
            Alignment::Right => 2,
            Alignment::Top => 4,
        }
    }

    /// The game's number for the alignment.
    pub fn code(self) -> (res: u8)
        ensures
            res == self.spec_code(),
            res == (match self {
                Alignment::Unaligned => 0u8,
                Alignment::Center => 1u8,
                Alignment::Right => 2u8,
                Alignment::Top => 4u8,
            }),
    {
        match self {
            Alignment::Unaligned => 0,
            Alignment::Center => 1,
            Alignment::Right => 2,
            Alignment::Top => 4,
        }
    }
}

impl Transparency {
    /// The game's number for the blending mode.
    pub open spec fn spec_code(self) -> u32 {
        match self {
            Transparency::ThreeFourths => 0,
            Transparency::Half => 1,
            Transparency::OneFourth => 2,
            Transparency::White => 3,
            Transparency::Black => 4,
            Transparency::Normal => 5,
            Transparency::Screen => 6,
            Transparency::Highlight => 7,
            Transparency::Full => 8,
        }
    }

    /// The game's number for the blending mode.
    pub fn code(self) -> (res: u32)
        ensures
            res == self.spec_code(),
            res == (match self {
                Transparency::ThreeFourths => 0u32,
                Transparency::Half => 1u32,
                Transparency::OneFourth => 2u32,
                Transparency::White => 3u32,
                Transparency::Black => 4u32,
                Transparency::Normal => 5u32,
                Transparency::Screen => 6u32,
                Transparency::Highlight => 7u32,
                Transparency::Full => 8u32,
            }),
    {
        match self {
            Transparency::ThreeFourths => 0,
            Transparency::Half => 1,
            Transparency::OneFourth => 2,
            Transparency::White => 3,
            Transparency::Black => 4,
            Transparency::Normal => 5,
            Transparency::Screen => 6,
            Transparency::Highlight => 7,
            Transparency::Full => 8,
        }
    }
}

/// The game's colour numbers: White 0, Red 1, Green 2, Blue 3, Gold 4,
/// Gray 5, Black 6, Tan 7, Orange 8, Yellow 9, DarkGreen 10, Purple 11,
/// Silver 15. Text drawn in a colour carries that number.
pub proof fn lemma_text_color_numbers()
    ensures
        TextColor::White.spec_code() == 0,
        TextColor::Red.spec_code() == 1,
        TextColor::Green.spec_code() == 2,
        TextColor::Blue.spec_code() == 3,
        TextColor::Gold.spec_code() == 4,
        TextColor::Gray.spec_code() == 5,
        TextColor::Black.spec_code() == 6,
        TextColor::Tan.spec_code() == 7,
        TextColor::Orange.spec_code() == 8,
        TextColor::Yellow.spec_code() == 9,
        TextColor::DarkGreen.spec_code() == 10,
        TextColor::Purple.spec_code() == 11,
        TextColor::Silver.spec_code() == 15,
{
}

/// The game's alignment numbers: Unaligned 0, Center 1, Right 2, Top 4.
pub proof fn lemma_alignment_numbers()
    ensures
        Alignment::Unaligned.spec_code() == 0,
        Alignment::Center.spec_code() == 1,
        Alignment::Right.spec_code() == 2,
        Alignment::Top.spec_code() == 4,
{
}

/// The game's blending numbers: ThreeFourths 0, Half 1, OneFourth 2,
/// White 3, Black 4, Normal 5, Screen 6, Highlight 7, Full 8. A box drawn
/// with a blending mode carries that number.
pub proof fn lemma_transparency_numbers()
    ensures
        Transparency::ThreeFourths.spec_code() == 0,
        Transparency::Half.spec_code() == 1,
        Transparency::OneFourth.spec_code() == 2,
        Transparency::White.spec_code() == 3,
        Transparency::Black.spec_code() == 4,
        Transparency::Normal.spec_code() == 5,
        Transparency::Screen.spec_code() == 6,
        Transparency::Highlight.spec_code() == 7,
        Transparency::Full.spec_code() == 8,
{
}

/// One call into the game's drawing routines.
#[allow(inconsistent_fields)]
#[derive(Debug)]
pub enum DrawCommand {
    /// Draw `text` with its baseline at (`x`, `y`) in colour `color`, with
    /// the game's text size set to `font` for the duration of the call.
    Text { text: String, x: i32, y: i32, color: i32, font: u8 },
    /// Fill the rectangle from (`x1`, `y1`) to (`x2`, `y2`).
    Rectangle { x1: u32, y1: u32, x2: u32, y2: u32, color: u32, transparency: u32 },
    /// Draw a line from (`x1`, `y1`) to (`x2`, `y2`).
    Line { x1: u32, y1: u32, x2: u32, y2: u32, color: u32 },
}

/// The height in pixels of each of the game's fonts.
pub open spec fn font_heights() -> Seq<u32> {
    seq![10u32, 11, 18, 24, 10, 13, 7, 13, 10, 12, 8, 8, 7, 12]
}

/// `v / 2` as integer division does it: rounded toward zero.
pub open spec fn half_toward_zero(v: int) -> int {
    if v >= 0 {
        v / 2
    } else {
        -((-v) / 2)
    }
}

/// Where aligned text starts, given the width the game measured for it
/// (read as a signed 32-bit number).
pub open spec fn aligned_x(x: i32, alignment: Alignment, text_width: u32) -> int {
    match alignment {
        Alignment::Center => x - half_toward_zero(signed32(text_width as int)),
        Alignment::Right => x - signed32(text_width as int),
        _ => x as int,
    }
}

/// The drawing commands of a box with a border: the filled rectangle, then
/// its top, left, right and bottom sides.
pub open spec fn bordered_box_commands(
    x: u32,
    y: u32,
    width: u32,
    height: u32,
    border_color: u32,
    background_color: u32,
    trans: Transparency,
) -> Seq<DrawCommand> {
    let x2 = (x + width) as u32;
    let y2 = (y + height) as u32;
    seq![
        DrawCommand::Rectangle { x1: x, y1: y, x2, y2, color: background_color, transparency: trans.spec_code() },
        DrawCommand::Line { x1: x, y1: y, x2, y2: y, color: border_color },
        DrawCommand::Line { x1: x, y1: y, x2: x, y2, color: border_color },
        DrawCommand::Line { x1: x2, y1: y, x2, y2, color: border_color },
        DrawCommand::Line { x1: x, y1: y2, x2, y2, color: border_color },
    ]
}

/// Turns overlay elements into calls of the game's drawing routines.
pub struct Draw {}

impl Draw {
    /// The height in pixels of the game's font `font`.
    pub fn text_height_by_font(font: u8) -> (res: u32)
        requires
            font < 14,
        ensures
            res == font_heights()[font as int],
    {
        let height: [u32; 14] = [10, 11, 18, 24, 10, 13, 7, 13, 10, 12, 8, 8, 7, 12];
        assert(height@ =~= font_heights());
        height[font as usize]
    }

    /// Whether `draw_text` may be called with these values: the text has no
    /// NUL character, the font is known and the placed coordinates fit in
    /// 32 bits.
    pub fn can_draw_text(x: i32, y: i32, alignment: Alignment, font: u8, msg: &str, text_width: u32) -> (res: bool)
        ensures
            res == (nul_free(msg@) && font < 14 && i32::MIN <= aligned_x(x, alignment, text_width) <= i32::MAX
                && y + font_heights()[font as int] <= i32::MAX),
    {
        if !is_nul_free(msg) || font >= 14 {
            return false;
        }
        let width: i64 = if text_width <= 0x7fff_ffff {
            text_width as i64
        } else {
            text_width as i64 - 0x1_0000_0000
        };
        proof {
            vstd::arithmetic::div_mod::lemma_small_mod(text_width as nat, 0x1_0000_0000);
        }
        let pos_x: i64 = match alignment {
            Alignment::Center => {
                let half: i64 = if width >= 0 {
                    width / 2
                } else {
                    -((-width) / 2)
                };
                x as i64 - half
            },
            Alignment::Right => x as i64 - width,
            _ => x as i64,
        };
        let height = Self::text_height_by_font(font);
        -0x8000_0000 <= pos_x && pos_x <= 0x7fff_ffff && y as i64 + height as i64 <= 0x7fff_ffff
    }

    /// The call that draws `msg` at (`x`, `y`): centred text is moved left by
    /// half its width, right-aligned text by its whole width, and the text
    /// is lowered by the font's height. `text_width` is the width the game
    /// measures for `msg` in `font`; only centred and right-aligned text
    /// depend on it.
    pub fn draw_text(x: i32, y: i32, color: TextColor, alignment: Alignment, font: u8, msg: &str, text_width: u32) -> (res: DrawCommand)
        requires
            nul_free(msg@),
            font < 14,
            i32::MIN <= aligned_x(x, alignment, text_width) <= i32::MAX,
            y + font_heights()[font as int] <= i32::MAX,
        ensures
            match res {
                DrawCommand::Text { text, x: px, y: py, color: c, font: f } => {
                    &&& text@ == msg@
                    &&& px == aligned_x(x, alignment, text_width)
                    &&& py == y + font_heights()[font as int]
                    &&& c == color.spec_code()
                    &&& c == (match color {
                        TextColor::White => 0i32,
                        TextColor::Red => 1i32,
                        TextColor::Green => 2i32,
                        TextColor::Blue => 3i32,
                        TextColor::Gold => 4i32,
                        TextColor::Gray => 5i32,
                        TextColor::Black => 6i32,
                        TextColor::Tan => 7i32,
                        TextColor::Orange => 8i32,
                        TextColor::Yellow => 9i32,
                        TextColor::DarkGreen => 10i32,
                        TextColor::Purple => 11i32,
                        TextColor::Silver => 15i32,
                    })
                    &&& f == font
                },
                _ => false,
            },
    {
        let width: i64 = if text_width <= 0x7fff_ffff {
            text_width as i64
        } else {
            text_width as i64 - 0x1_0000_0000
        };
        proof {
            vstd::arithmetic::div_mod::lemma_small_mod(text_width as nat, 0x1_0000_0000);
        }
        assert(width == signed32(text_width as int));
        let pos_x: i32 = match alignment {
            Alignment::Center => {
                let half: i64 = if width >= 0 {
                    width / 2
                } else {
                    -((-width) / 2)
                };
                (x as i64 - half) as i32
            },
            Alignment::Right => (x as i64 - width) as i32,
            _ => x,
        };
        let height = Self::text_height_by_font(font);
        DrawCommand::Text {
            text: String::from_str(msg),
            x: pos_x,
            y: y + height as i32,
            color: color.code(),
            font,
        }
    }

    /// The call that fills the box of size `width` by `height` whose top left
    /// corner is (`x`, `y`).
    pub fn draw_box(x: u32, y: u32, width: u32, height: u32, color: u32, trans: Transparency) -> (res: DrawCommand)
        requires
            x + width <= u32::MAX,
            y + height <= u32::MAX,
        ensures
            res matches DrawCommand::Rectangle { transparency: t, .. } && t == (match trans {
                    Transparency::ThreeFourths => 0u32,
                    Transparency::Half => 1u32,
                    Transparency::OneFourth => 2u32,
                    Transparency::White => 3u32,
                    Transparency::Black => 4u32,
                    Transparency::Normal => 5u32,
                    Transparency::Screen => 6u32,
                    Transparency::Highlight => 7u32,
                    Transparency::Full => 8u32,
                }),
            res == (DrawCommand::Rectangle {
                x1: x,
                y1: y,
                x2: (x + width) as u32,
                y2: (y + height) as u32,
                color,
                transparency: trans.spec_code(),
            }),
    {
        DrawCommand::Rectangle { x1: x, y1: y, x2: x + width, y2: y + height, color, transparency: trans.code() }
    }

    /// The call that draws a line from (`x1`, `y1`) to (`x2`, `y2`).
    pub fn draw_line(x1: u32, y1: u32, x2: u32, y2: u32, color: u32) -> (res: DrawCommand)
        ensures
            res == (DrawCommand::Line { x1, y1, x2, y2, color }),
    {
        DrawCommand::Line { x1, y1, x2, y2, color }
    }

    /// The calls that draw a filled box with a one-pixel border: the box,
    /// then its top, left, right and bottom sides.
    pub fn draw_bordered_box(
        x: u32,
        y: u32,
        width: u32,
        height: u32,
        border_color: u32,
        background_color: u32,
        trans: Transparency,
    ) -> (res: Vec<DrawCommand>)
        requires
            x + width <= u32::MAX,
            y + height <= u32::MAX,
        ensures
            res@ == bordered_box_commands(x, y, width, height, border_color, background_color, trans),
    {
        let mut res: Vec<DrawCommand> = Vec::new();
        res.push(Self::draw_box(x, y, width, height, background_color, trans));
        res.push(Self::draw_line(x, y, x + width, y, border_color));
        res.push(Self::draw_line(x, y, x, y + height, border_color));
        res.push(Self::draw_line(x + width, y, x + width, y + height, border_color));
        res.push(Self::draw_line(x, y + height, x + width, y + height, border_color));
        assert(res@ =~= bordered_box_commands(x, y, width, height, border_color, background_color, trans));
        res
    }
}

/// What the overlay shows about the running game, read from the game by
/// the caller. It exists only while the player is in a game.
#[derive(Debug)]
pub struct GameStatus {
    pub game_name: String,
    pub game_password: String,
    pub fps: u32,
    pub ping: u32,
    pub skip: u32,
    pub difficulty: String,
    pub area_name: String,
    pub life_percent: i32,
    pub mana_percent: i32,
}

/// A chicken threshold as the overlay shows it: its number, or `Off` when
/// it is below zero.
pub open spec fn threshold_text(v: i32) -> Seq<char> {
    if v >= 0 {
        decimal(v as int)
    } else {
        "Off"@
    }
}

/// The template variables for a game status, in a fixed order.
pub open spec fn template_variables(status: GameStatus, settings: ChickenSettings) -> Seq<(Seq<char>, Seq<char>)> {
    seq![
        ("game_name"@, status.game_name@),
        ("game_password"@, status.game_password@),
        ("fps"@, decimal(status.fps as int)),
        ("ping"@, decimal(status.ping as int)),
        ("skip"@, decimal(status.skip as int)),
        ("game_difficulty"@, status.difficulty@),
        ("area_name"@, status.area_name@),
        ("town_life"@, threshold_text(settings.town_life)),
        ("town_mana"@, threshold_text(settings.town_mana)),
        ("exit_life"@, threshold_text(settings.exit_life)),
        ("exit_mana"@, threshold_text(settings.exit_mana)),
        ("potion_life"@, threshold_text(settings.potion_life)),
        ("rejuv_life"@, threshold_text(settings.rejuv_life)),
        ("potion_mana"@, threshold_text(settings.potion_mana)),
        ("rejuv_mana"@, threshold_text(settings.rejuv_mana)),
        ("life_percent"@, decimal(status.life_percent as int)),
        ("mana_percent"@, decimal(status.mana_percent as int)),
    ]
}

/// No two template variables share a name, so collecting them into a map
/// loses none of them.
pub proof fn lemma_variable_names_distinct(status: GameStatus, settings: ChickenSettings)
    ensures
        ({
            let vars = template_variables(status, settings);
            forall|i: int, j: int| 0 <= i < j < vars.len() ==> #[trigger] vars[i].0 != #[trigger] vars[j].0
        }),
{
    reveal_strlit("game_name");
    reveal_strlit("game_password");
    reveal_strlit("fps");
    reveal_strlit("ping");
    reveal_strlit("skip");
    reveal_strlit("game_difficulty");
    reveal_strlit("area_name");
    reveal_strlit("town_life");
    reveal_strlit("town_mana");
    reveal_strlit("exit_life");
    reveal_strlit("exit_mana");
    reveal_strlit("potion_life");
    reveal_strlit("rejuv_life");
    reveal_strlit("potion_mana");
    reveal_strlit("rejuv_mana");
    reveal_strlit("life_percent");
    reveal_strlit("mana_percent");
    let vars = template_variables(status, settings);
    assert forall|i: int, j: int| 0 <= i < j < vars.len() implies #[trigger] vars[i].0 != #[trigger] vars[j].0 by {
        if vars[i].0.len() == vars[j].0.len() {
            assert(vars[i].0[0] != vars[j].0[0] || vars[i].0[5] != vars[j].0[5] || vars[i].0[6] != vars[j].0[6]
                || vars[i].0[7] != vars[j].0[7]);
        }
    }
}

/// `vars` has a variable `name`, and every variable of that name has the
/// value `value`.
pub open spec fn binds(vars: Seq<(Seq<char>, Seq<char>)>, name: Seq<char>, value: Seq<char>) -> bool {
    &&& exists|k: int| 0 <= k < vars.len() && #[trigger] vars[k] == (name, value)
    &&& forall|k: int| 0 <= k < vars.len() && (#[trigger] vars[k]).0 == name ==> vars[k].1 == value
}

/// In a list of variables whose names are all different, the variable at
/// `k` is the one its name binds.
proof fn lemma_binds_at(vars: Seq<(Seq<char>, Seq<char>)>, k: int)
    requires
        0 <= k < vars.len(),
        forall|i: int, j: int| 0 <= i < j < vars.len() ==> #[trigger] vars[i].0 != #[trigger] vars[j].0,
    ensures
        binds(vars, vars[k].0, vars[k].1),
{
    assert(vars[k] == (vars[k].0, vars[k].1));
    assert forall|m: int| 0 <= m < vars.len() && (#[trigger] vars[m]).0 == vars[k].0 implies vars[m].1 == vars[k].1 by {
        if m < k {
            assert(vars[m].0 != vars[k].0);
        } else if m > k {
            assert(vars[k].0 != vars[m].0);
        }
    }
}

/// Each template variable holds what its name says: the game's name,
/// password, frame rate, ping, skipped frames, difficulty and area, each
/// chicken threshold shown by `threshold_text` of the setting of the same
/// name (its number, or `Off` when switched off), and the player's life and
/// mana percentages.
pub proof fn lemma_variables_by_name(status: GameStatus, settings: ChickenSettings)
    ensures
        ({
            let vars = template_variables(status, settings);
            &&& binds(vars, "game_name"@, status.game_name@)
            &&& binds(vars, "game_password"@, status.game_password@)
            &&& binds(vars, "fps"@, decimal(status.fps as int))
            &&& binds(vars, "ping"@, decimal(status.ping as int))
            &&& binds(vars, "skip"@, decimal(status.skip as int))
            &&& binds(vars, "game_difficulty"@, status.difficulty@)
            &&& binds(vars, "area_name"@, status.area_name@)
            &&& binds(vars, "town_life"@, threshold_text(settings.town_life))
            &&& binds(vars, "town_mana"@, threshold_text(settings.town_mana))
            &&& binds(vars, "exit_life"@, threshold_text(settings.exit_life))
            &&& binds(vars, "exit_mana"@, threshold_text(settings.exit_mana))
            &&& binds(vars, "potion_life"@, threshold_text(settings.potion_life))
            &&& binds(vars, "rejuv_life"@, threshold_text(settings.rejuv_life))
            &&& binds(vars, "potion_mana"@, threshold_text(settings.potion_mana))
            &&& binds(vars, "rejuv_mana"@, threshold_text(settings.rejuv_mana))
            &&& binds(vars, "life_percent"@, decimal(status.life_percent as int))
            &&& binds(vars, "mana_percent"@, decimal(status.mana_percent as int))
        }),
{
    let vars = template_variables(status, settings);
    lemma_variable_names_distinct(status, settings);
    lemma_binds_at(vars, 0);
    lemma_binds_at(vars, 1);
    lemma_binds_at(vars, 2);
    lemma_binds_at(vars, 3);
    lemma_binds_at(vars, 4);
    lemma_binds_at(vars, 5);
    lemma_binds_at(vars, 6);
    lemma_binds_at(vars, 7);
    lemma_binds_at(vars, 8);
    lemma_binds_at(vars, 9);
    lemma_binds_at(vars, 10);
    lemma_binds_at(vars, 11);
    lemma_binds_at(vars, 12);
    lemma_binds_at(vars, 13);
    lemma_binds_at(vars, 14);
    lemma_binds_at(vars, 15);
    lemma_binds_at(vars, 16);
}

/// A threshold is shown as its decimal number when it is on (zero or more)
/// and as `Off` when it is below zero.
pub proof fn lemma_threshold_text(v: i32)
    ensures
        v >= 0 ==> threshold_text(v) == decimal(v as int),
        v < 0 ==> threshold_text(v) == "Off"@,
{
}

fn threshold_string(v: i32) -> (res: String)
    ensures
        res@ == threshold_text(v),
{
    if v >= 0 {
        decimal_string(v as i64)
    } else {
        String::from_str("Off")
    }
}

fn push_variable(vars: &mut Vec<(String, String)>, name: &str, value: String)
    ensures
        final(vars).deep_view() == old(vars).deep_view().push((name@, value@)),
{
    let ghost before = vars.deep_view();
    vars.push((String::from_str(name), value));
    assert(vars.deep_view() =~= before.push((name@, value@)));
}

/// The values the overlay templates can name, or nothing when no player is
/// in a game.
pub fn prepare_hashmap(status: &Option<GameStatus>, settings: &ChickenSettings) -> (res: Option<Vec<(String, String)>>)
    ensures
        match (status, res) {
            (None, None) => true,
            (Some(s), Some(vars)) => vars.deep_view() == template_variables(*s, *settings),
            _ => false,
        },
{
    match status {
        None => None,
        Some(s) => {
            let mut vars: Vec<(String, String)> = Vec::new();
            assert(vars.deep_view() =~= Seq::<(Seq<char>, Seq<char>)>::empty());
            push_variable(&mut vars, "game_name", s.game_name.clone());
            push_variable(&mut vars, "game_password", s.game_password.clone());
            push_variable(&mut vars, "fps", decimal_string(s.fps as i64));
            push_variable(&mut vars, "ping", decimal_string(s.ping as i64));
            push_variable(&mut vars, "skip", decimal_string(s.skip as i64));
            push_variable(&mut vars, "game_difficulty", s.difficulty.clone());
            push_variable(&mut vars, "area_name", s.area_name.clone());
            push_variable(&mut vars, "town_life", threshold_string(settings.town_life));
            push_variable(&mut vars, "town_mana", threshold_string(settings.town_mana));
            push_variable(&mut vars, "exit_life", threshold_string(settings.exit_life));
            push_variable(&mut vars, "exit_mana", threshold_string(settings.exit_mana));
            push_variable(&mut vars, "potion_life", threshold_string(settings.potion_life));
            push_variable(&mut vars, "rejuv_life", threshold_string(settings.rejuv_life));
            push_variable(&mut vars, "potion_mana", threshold_string(settings.potion_mana));
            push_variable(&mut vars, "rejuv_mana", threshold_string(settings.rejuv_mana));
            push_variable(&mut vars, "life_percent", decimal_string(s.life_percent as i64));
            push_variable(&mut vars, "mana_percent", decimal_string(s.mana_percent as i64));
            assert(vars.deep_view() =~= template_variables(*s, *settings));
            Some(vars)
        },
    }
}

} // verus!
