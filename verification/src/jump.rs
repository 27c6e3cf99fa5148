//! The rules of the jump game that are made of whole numbers: where the
//! floor is, what the terrain grows and when a runner hits it. The motion
//! of the runner is not here.

use vstd::prelude::*;
use crate::common::{U16Point, spec_in_range, u16_range_overlap, u16_value_included_in_range};
use crate::gfx::{DrawCommandView, Gfx, repeat_str, repeated};
use crate::render::concat_first;

verus! {

pub const PLAYER_COLOR: u8 = 97;

/// The column in which the runner stands.
pub const PLAYER_X: u16 = 10;

/// How many rows the floor lies above the last row of the terminal.
pub const FLOOR_OFFS_FROM_BOTTOM: u16 = 6;

/// After how many frames the runner's figure has gone through its looks.
pub const PLAYER_SPRITE_SPEED: u64 = 20;

/// How many looks the runner's figure has.
pub const PLAYER_SPRITE_COUNT: u64 = 4;

/// The row of the floor on a terminal that has room for it.
pub fn floor(gfx: &Gfx) -> (r: u16)
    requires
        gfx.height >= FLOOR_OFFS_FROM_BOTTOM,
    ensures
        r == gfx.height - FLOOR_OFFS_FROM_BOTTOM,
{
    gfx.height - FLOOR_OFFS_FROM_BOTTOM
}

/// What grows on the floor for the look of it.
#[derive(Debug, Clone, Copy, PartialEq, Eq, Structural)]
pub enum DecorationType {
    Stone,
    GrassSmall,
    GrassMedium,
    GrassLeanLeft,
    GrassLeanRight,
}

/// What stands in the runner's way.
#[derive(Debug, Clone, Copy, PartialEq, Eq, Structural)]
pub enum ObstacleType {
    OneSmall,
    LongSmall,
    OneMedium,
    TwoMedium,
    ThreeMedium,
    OneTall,
    TwoTall,
}

/// `rand::random::<u8>()`: a byte from the thread's random number
/// generator. Nothing is known of the byte.
#[verifier::external_body]
fn random_u8() -> u8 {
    rand::random::<u8>()
}

impl DecorationType {
    /// The decoration that a roll picks: the kinds in their order, by the
    /// rest of the roll divided by their number.
    pub open spec fn spec_from_roll(roll: u8) -> DecorationType {
        if roll % 5 == 0 {
            DecorationType::Stone
        } else if roll % 5 == 1 {
            DecorationType::GrassSmall
        } else if roll % 5 == 2 {
            DecorationType::GrassMedium
        } else if roll % 5 == 3 {
            DecorationType::GrassLeanLeft
        } else {
            DecorationType::GrassLeanRight
        }
    }

    pub fn from_roll(roll: u8) -> (r: Self)
        ensures
            r == Self::spec_from_roll(roll),
    {
        let rest: u8 = roll % 5;
        if rest == 0 {
            Self::Stone
        } else if rest == 1 {
            Self::GrassSmall
        } else if rest == 2 {
            Self::GrassMedium
        } else if rest == 3 {
            Self::GrassLeanLeft
        } else {
            Self::GrassLeanRight
        }
    }

    /// A decoration picked by chance.
    pub fn random() -> (r: Self)
        ensures
            exists|roll: u8| r == Self::spec_from_roll(roll),
    {
        Self::from_roll(random_u8())
    }

    /// The terminal colour code of the decoration.
    pub open spec fn spec_color(self) -> u8 {
        match self {
            DecorationType::Stone => 90,
            DecorationType::GrassSmall => 32,
            DecorationType::GrassMedium => 32,
            DecorationType::GrassLeanLeft => 92,
            DecorationType::GrassLeanRight => 92,
        }
    }

    /// The character that shows the decoration.
    pub open spec fn spec_glyph(self) -> Seq<char> {
        match self {
            DecorationType::Stone => "🬞"@,
            DecorationType::GrassSmall => "🬞"@,
            DecorationType::GrassMedium => "🬵"@,
            DecorationType::GrassLeanLeft => "╮"@,
            DecorationType::GrassLeanRight => "╭"@,
        }
    }

    /// The character that shows the decoration, and its colour code.
    pub fn look(self) -> (r: (&'static str, u8))
        ensures
            r.0@ == self.spec_glyph(),
            r.1 == self.spec_color(),
    {
        match self {
            DecorationType::Stone => ("🬞", 90),
            DecorationType::GrassSmall => ("🬞", 32),
            DecorationType::GrassMedium => ("🬵", 32),
            DecorationType::GrassLeanLeft => ("╮", 92),
            DecorationType::GrassLeanRight => ("╭", 92),
        }
    }
}

/// One post of an obstacle: how many columns beyond the right edge of the
/// terminal it comes up, and the rows that it covers, the upper first.
pub type ObstaclePost = (u16, U16Point);

impl ObstacleType {
    /// The obstacle that a roll picks: the kinds in their order, by the
    /// rest of the roll divided by their number.
    pub open spec fn spec_from_roll(roll: u8) -> ObstacleType {
        if roll % 7 == 0 {
            ObstacleType::OneSmall
        } else if roll % 7 == 1 {
            ObstacleType::LongSmall
        } else if roll % 7 == 2 {
            ObstacleType::OneMedium
        } else if roll % 7 == 3 {
            ObstacleType::TwoMedium
        } else if roll % 7 == 4 {
            ObstacleType::ThreeMedium
        } else if roll % 7 == 5 {
            ObstacleType::OneTall
        } else {
            ObstacleType::TwoTall
        }
    }

    pub fn from_roll(roll: u8) -> (r: Self)
        ensures
            r == Self::spec_from_roll(roll),
    {
        let rest: u8 = roll % 7;
        if rest == 0 {
            Self::OneSmall
        } else if rest == 1 {
            Self::LongSmall
        } else if rest == 2 {
            Self::OneMedium
        } else if rest == 3 {
            Self::TwoMedium
        } else if rest == 4 {
            Self::ThreeMedium
        } else if rest == 5 {
            Self::OneTall
        } else {
            Self::TwoTall
        }
    }

    /// An obstacle picked by chance.
    pub fn random() -> (r: Self)
        ensures
            exists|roll: u8| r == Self::spec_from_roll(roll),
    {
        Self::from_roll(random_u8())
    }

    /// How far the last post of the obstacle has to be from the right edge
    /// before the next obstacle comes.
    pub open spec fn spec_delay(self) -> u16 {
        match self {
            ObstacleType::OneSmall => 30,
            ObstacleType::LongSmall => 70,
            ObstacleType::OneMedium => 50,
            ObstacleType::TwoMedium => 55,
            ObstacleType::ThreeMedium => 60,
            ObstacleType::OneTall => 70,
            ObstacleType::TwoTall => 70,
        }
    }

    pub fn delay(self) -> (r: u16)
        ensures
            r == self.spec_delay(),
    {
        match self {
            ObstacleType::OneSmall => 30,
            ObstacleType::LongSmall => 70,
            ObstacleType::OneMedium => 50,
            ObstacleType::TwoMedium => 55,
            ObstacleType::ThreeMedium => 60,
            ObstacleType::OneTall => 70,
            ObstacleType::TwoTall => 70,
        }
    }

    /// The post of the long low obstacle with the number `k` of nine: five
    /// columns from the one before, two rows high at both ends and four in
    /// the middle.
    pub open spec fn long_small_post(k: int, floor: u16) -> ObstaclePost {
        (
            (5 * k) as u16,
            (
                (floor - 4 + (if k <= 4 {
                    4 - k
                } else {
                    k - 4
                }) / 2) as u16,
                floor,
            ),
        )
    }

    /// The posts of the obstacle on a floor in the row `floor`, from left
    /// to right. All of them stand on the floor.
    pub open spec fn spec_posts(self, floor: u16) -> Seq<ObstaclePost> {
        match self {
            ObstacleType::OneSmall => seq![(0u16, ((floor - 2) as u16, floor))],
            ObstacleType::OneTall => seq![(0u16, ((floor - 16) as u16, floor))],
            ObstacleType::TwoTall => seq![
                (0u16, ((floor - 16) as u16, floor)),
                (8u16, ((floor - 16) as u16, floor)),
            ],
            ObstacleType::LongSmall => Seq::new(9, |k: int| Self::long_small_post(k, floor)),
            ObstacleType::OneMedium => seq![(0u16, ((floor - 10) as u16, floor))],
            ObstacleType::TwoMedium => seq![
                (0u16, ((floor - 10) as u16, floor)),
                (8u16, ((floor - 10) as u16, floor)),
            ],
            ObstacleType::ThreeMedium => seq![
                (0u16, ((floor - 10) as u16, floor)),
                (6u16, ((floor - 10) as u16, floor)),
                (12u16, ((floor - 10) as u16, floor)),
            ],
        }
    }

    /// The posts of the obstacle on a floor that is low enough for the
    /// tallest of them.
    pub fn posts(self, floor: u16) -> (r: Vec<ObstaclePost>)
        requires
            floor >= 16,
        ensures
            r@ == self.spec_posts(floor),
    {
        let mut out: Vec<ObstaclePost> = Vec::new();
        match self {
            ObstacleType::OneSmall => {
                out.push((0, (floor - 2, floor)));
            },
            ObstacleType::OneTall => {
                out.push((0, (floor - 16, floor)));
            },
            ObstacleType::TwoTall => {
                out.push((0, (floor - 16, floor)));
                out.push((8, (floor - 16, floor)));
            },
            ObstacleType::LongSmall => {
                let mut k: u16 = 0;
                while k < 9
                    invariant
                        0 <= k <= 9,
                        floor >= 16,
                        out@.len() == k,
                        forall|j: int|
                            0 <= j < k ==> out@[j] == #[trigger] Self::long_small_post(j, floor),
                    decreases 9 - k,
                {
                    let dent: u16 = if k <= 4 {
                        4 - k
                    } else {
                        k - 4
                    };
                    out.push((5 * k, (floor - 4 + dent / 2, floor)));
                    k = k + 1;
                }
            },
            ObstacleType::OneMedium => {
                out.push((0, (floor - 10, floor)));
            },
            ObstacleType::TwoMedium => {
                out.push((0, (floor - 10, floor)));
                out.push((8, (floor - 10, floor)));
            },
            ObstacleType::ThreeMedium => {
                out.push((0, (floor - 10, floor)));
                out.push((6, (floor - 10, floor)));
                out.push((12, (floor - 10, floor)));
            },
        }
        assert(out@ =~= self.spec_posts(floor));
        out
    }
}

/// Whether the post in column `column` over the rows `rows` reaches into
/// the frame between two corners: its column is one of the frame's, and
/// its rows and the frame's share a row.
pub open spec fn post_hits_frame(column: u16, rows: U16Point, frame: (U16Point, U16Point)) -> bool {
    spec_in_range(column, (frame.0.0, frame.1.0)) && !(rows.1 < frame.0.1 || rows.0 > frame.1.1)
}

/// Whether one of the posts, each given by its column and its rows,
/// reaches into `frame`.
pub fn did_collide_with_frame(posts: &Vec<(u16, U16Point)>, frame: (U16Point, U16Point)) -> (r:
    bool)
    ensures
        r <==> exists|i: int|
            0 <= i < posts@.len() && post_hits_frame(
                (#[trigger] posts@[i]).0,
                posts@[i].1,
                frame,
            ),
{
    let mut i: usize = 0;
    while i < posts.len()
        invariant
            0 <= i <= posts@.len(),
            forall|j: int|
                0 <= j < i ==> !post_hits_frame((#[trigger] posts@[j]).0, posts@[j].1, frame),
        decreases posts.len() - i,
    {
        let post: (u16, U16Point) = posts[i];
        if u16_value_included_in_range(post.0, (frame.0.0, frame.1.0)) {
            if u16_range_overlap((frame.0.1, frame.1.1), post.1) {
                return true;
            }
        }
        i = i + 1;
    }
    false
}

/// Which look the runner's figure has at the count `sprite_counter`: each
/// look lasts as many frames as the next.
pub fn player_sprite_index(sprite_counter: u64) -> (r: usize)
    requires
        sprite_counter < PLAYER_SPRITE_SPEED,
    ensures
        r == sprite_counter / 5,
        r < PLAYER_SPRITE_COUNT,
{
    (sprite_counter / (PLAYER_SPRITE_SPEED / PLAYER_SPRITE_COUNT)) as usize
}

/// The count of the runner's figure one frame later.
pub fn next_sprite_counter(sprite_counter: u64) -> (r: u64)
    requires
        sprite_counter < u64::MAX,
    ensures
        r == (sprite_counter + 1) % (PLAYER_SPRITE_SPEED as int),
        r < PLAYER_SPRITE_SPEED,
{
    (sprite_counter + 1) % PLAYER_SPRITE_SPEED
}

/// The kind of jump that a key asks for, by its number: `s` the medium
/// one, `w` the tall one, `d` the long one and `a` the short one.
pub open spec fn spec_jump_of_key(c: char) -> Option<usize> {
    if c == 's' {
        Some(0usize)
    } else if c == 'w' {
        Some(1usize)
    } else if c == 'd' {
        Some(2usize)
    } else if c == 'a' {
        Some(3usize)
    } else {
        None
    }
}

pub fn jump_of_key(c: char) -> (r: Option<usize>)
    ensures
        r == spec_jump_of_key(c),
{
    if c == 's' {
        Some(0)
    } else if c == 'w' {
        Some(1)
    } else if c == 'd' {
        Some(2)
    } else if c == 'a' {
        Some(3)
    } else {
        None
    }
}

/// The two characters of the runner's figure with the index `index`, the
/// head before the feet.
pub open spec fn spec_player_sprite(index: int) -> (Seq<char>, Seq<char>) {
    if index == 0 {
        ("O"@, "^"@)
    } else if index == 1 {
        ("O"@, "<"@)
    } else if index == 2 {
        ("O"@, "v"@)
    } else {
        ("O"@, ">"@)
    }
}

pub fn player_sprite(index: usize) -> (r: (&'static str, &'static str))
    requires
        index < PLAYER_SPRITE_COUNT,
    ensures
        r.0@ == spec_player_sprite(index as int).0,
        r.1@ == spec_player_sprite(index as int).1,
{
    if index == 0 {
        ("O", "^")
    } else if index == 1 {
        ("O", "<")
    } else if index == 2 {
        ("O", "v")
    } else {
        ("O", ">")
    }
}

/// The decorations as they are shown: each in its column on the floor.
pub open spec fn decorations_shown(decorations: Seq<(DecorationType, u16)>, floor: u16) -> Seq<
    DrawCommandView,
> {
    Seq::new(
        decorations.len(),
        |i: int|
            DrawCommandView::ColoredTextAt {
                x: decorations[i].1,
                y: floor,
                text: decorations[i].0.spec_glyph(),
                color: decorations[i].0.spec_color(),
            },
    )
}

/// The terminal colour code of the cell `i` of a post, from the floor up:
/// the two colours of a post take turns.
pub open spec fn post_cell_color(i: int) -> u8 {
    if i % 2 == 0 {
        91
    } else {
        97
    }
}

/// A post as it is shown on a terminal of `width` columns: a cell for
/// each of its rows but one, from the floor up. A post beyond the right
/// edge is not shown.
pub open spec fn post_shown(post: ObstaclePost, floor: u16, width: u16) -> Seq<DrawCommandView> {
    if post.0 < width {
        Seq::new(
            (post.1.1 - post.1.0) as nat,
            |i: int|
                DrawCommandView::ColoredTextAt {
                    x: post.0,
                    y: (floor - i) as u16,
                    text: "▓"@,
                    color: post_cell_color(i),
                },
        )
    } else {
        Seq::empty()
    }
}

/// What shows post `i` of `posts`.
pub open spec fn post_drawer(posts: Seq<ObstaclePost>, floor: u16, width: u16) -> spec_fn(int) -> Seq<
    DrawCommandView,
> {
    |i: int| post_shown(posts[i], floor, width)
}

/// The ground as it is shown: three rows below the floor, over the whole
/// width.
pub open spec fn ground_shown(floor: u16, width: u16) -> Seq<DrawCommandView> {
    seq![
        DrawCommandView::ColoredTextAt {
            x: 0,
            y: (floor + 1) as u16,
            text: repeated("▒"@, width as nat),
            color: 32,
        },
        DrawCommandView::ColoredTextAt {
            x: 0,
            y: (floor + 2) as u16,
            text: repeated("▓"@, width as nat),
            color: 33,
        },
        DrawCommandView::ColoredTextAt {
            x: 0,
            y: (floor + 3) as u16,
            text: repeated("░"@, width as nat),
            color: 33,
        },
    ]
}

/// The terrain as it is shown: the decorations, the posts and the ground.
pub open spec fn terrain_shown(
    decorations: Seq<(DecorationType, u16)>,
    posts: Seq<ObstaclePost>,
    floor: u16,
    width: u16,
) -> Seq<DrawCommandView> {
    decorations_shown(decorations, floor) + concat_first(
        posts.len() as int,
        post_drawer(posts, floor, width),
    ) + ground_shown(floor, width)
}

/// Whether a post can be shown on a floor in the row `floor`: its rows are
/// in their order and no more than there are rows from the floor up.
pub open spec fn post_fits(post: ObstaclePost, floor: u16) -> bool {
    post.1.0 <= post.1.1 && post.1.1 - post.1.0 <= floor + 1
}

/// Draws the terrain on a floor in the row `floor`: decorations and
/// posts, each given with its column.
pub fn draw_terrain(
    gfx: &mut Gfx,
    floor: u16,
    decorations: &Vec<(DecorationType, u16)>,
    posts: &Vec<ObstaclePost>,
)
    requires
        floor + 3 <= u16::MAX,
        forall|i: int|
            0 <= i < posts@.len() && (#[trigger] posts@[i]).0 < old(gfx).width ==> post_fits(
                posts@[i],
                floor,
            ),
    ensures
        final(gfx).extends(
            old(gfx),
            terrain_shown(decorations@, posts@, floor, old(gfx).width),
        ),
{
    let ghost base = old(gfx).recorded();
    let ghost decor = decorations_shown(decorations@, floor);
    let width: u16 = gfx.width;
    assert(gfx.recorded() =~= base + decor.take(0));
    let mut i: usize = 0;
    while i < decorations.len()
        invariant
            0 <= i <= decorations@.len(),
            decor == decorations_shown(decorations@, floor),
            gfx.extends(old(gfx), decor.take(i as int)),
            base == old(gfx).recorded(),
        decreases decorations.len() - i,
    {
        let (glyph, color) = decorations[i].0.look();
        gfx.draw_text(glyph, decorations[i].1, floor, color);
        assert(gfx.recorded() =~= base + decor.take(i + 1));
        i = i + 1;
    }
    assert(decor.take(decorations@.len() as int) =~= decor);

    let ghost draw_post = post_drawer(posts@, floor, width);
    assert(gfx.recorded() =~= base + (decor + concat_first(0, draw_post)));
    let mut i: usize = 0;
    while i < posts.len()
        invariant
            0 <= i <= posts@.len(),
            width == old(gfx).width,
            draw_post == post_drawer(posts@, floor, width),
            forall|j: int|
                0 <= j < posts@.len() && (#[trigger] posts@[j]).0 < width ==> post_fits(
                    posts@[j],
                    floor,
                ),
            gfx.extends(old(gfx), decor + concat_first(i as int, draw_post)),
            base == old(gfx).recorded(),
        decreases posts.len() - i,
    {
        let post: ObstaclePost = posts[i];
        let ghost before = gfx.recorded();
        let ghost cells = post_shown(post, floor, width);
        if post.0 < width {
            let height: u16 = post.1.1 - post.1.0;
            assert(gfx.recorded() =~= before + cells.take(0));
            let mut k: u16 = 0;
            while k < height
                invariant
                    0 <= k <= height,
                    height == post.1.1 - post.1.0,
                    height <= floor + 1,
                    post.0 < width,
                    cells == post_shown(post, floor, width),
                    gfx.recorded() == before + cells.take(k as int),
                    gfx.width == old(gfx).width,
                    gfx.height == old(gfx).height,
                decreases height - k,
            {
                let color: u8 = if k % 2 == 0 {
                    91
                } else {
                    97
                };
                gfx.draw_text("▓", post.0, floor - k, color);
                assert(gfx.recorded() =~= before + cells.take(k + 1));
                k = k + 1;
            }
            assert(cells.take(height as int) =~= cells);
        } else {
            assert(gfx.recorded() =~= before + cells);
        }
        assert(gfx.recorded() =~= base + (decor + concat_first(i + 1, draw_post)));
        i = i + 1;
    }

    let bar: String = repeat_str("▒", width as usize);
    gfx.draw_text(bar.as_str(), 0, floor + 1, 32);
    let bar: String = repeat_str("▓", width as usize);
    gfx.draw_text(bar.as_str(), 0, floor + 2, 33);
    let bar: String = repeat_str("░", width as usize);
    gfx.draw_text(bar.as_str(), 0, floor + 3, 33);
    assert(gfx.recorded() =~= base + terrain_shown(decorations@, posts@, floor, width));
}

/// The runner as it is shown in the column `x`: its head in the row
/// `head_row` and its feet in the row `feet_row`; and for a dead runner a
/// pool on the floor and its drops.
pub open spec fn player_shown(
    sprite_counter: u64,
    x: u16,
    head_row: u16,
    feet_row: u16,
    dead: bool,
    floor: u16,
    drops: Seq<U16Point>,
) -> Seq<DrawCommandView> {
    seq![
        DrawCommandView::ColoredTextAt {
            x,
            y: head_row,
            text: spec_player_sprite(sprite_counter as int / 5).0,
            color: PLAYER_COLOR,
        },
        DrawCommandView::ColoredTextAt {
            x,
            y: feet_row,
            text: spec_player_sprite(sprite_counter as int / 5).1,
            color: PLAYER_COLOR,
        },
    ] + if dead {
        seq![
            DrawCommandView::ColoredTextAt { x: 0, y: floor, text: "▁▁▁▁▁▁▂▂▂▃"@, color: 91 },
        ] + Seq::new(
            drops.len(),
            |i: int|
                DrawCommandView::ColoredTextAt {
                    x: drops[i].0,
                    y: drops[i].1,
                    text: "*"@,
                    color: 31,
                },
        )
    } else {
        Seq::empty()
    }
}

/// Draws the runner.
pub fn draw_player(
    gfx: &mut Gfx,
    sprite_counter: u64,
    x: u16,
    head_row: u16,
    feet_row: u16,
    dead: bool,
    floor: u16,
    drops: &Vec<U16Point>,
)
    requires
        sprite_counter < PLAYER_SPRITE_SPEED,
    ensures
        final(gfx).extends(
            old(gfx),
            player_shown(sprite_counter, x, head_row, feet_row, dead, floor, drops@),
        ),
{
    let ghost base = old(gfx).recorded();
    let sprite = player_sprite(player_sprite_index(sprite_counter));
    gfx.draw_text(sprite.0, x, head_row, PLAYER_COLOR);
    gfx.draw_text(sprite.1, x, feet_row, PLAYER_COLOR);
    let ghost figure = seq![
        DrawCommandView::ColoredTextAt {
            x,
            y: head_row,
            text: spec_player_sprite(sprite_counter as int / 5).0,
            color: PLAYER_COLOR,
        },
        DrawCommandView::ColoredTextAt {
            x,
            y: feet_row,
            text: spec_player_sprite(sprite_counter as int / 5).1,
            color: PLAYER_COLOR,
        },
    ];
    assert(gfx.recorded() =~= base + figure);
    if dead {
        gfx.draw_text("▁▁▁▁▁▁▂▂▂▃", 0, floor, 91);
        let ghost pool = seq![
            DrawCommandView::ColoredTextAt { x: 0, y: floor, text: "▁▁▁▁▁▁▂▂▂▃"@, color: 91 },
        ];
        let ghost all = Seq::new(
            drops@.len(),
            |i: int|
                DrawCommandView::ColoredTextAt {
                    x: drops@[i].0,
                    y: drops@[i].1,
                    text: "*"@,
                    color: 31,
                },
        );
        assert(gfx.recorded() =~= base + (figure + (pool + all.take(0))));
        let mut i: usize = 0;
        while i < drops.len()
            invariant
                0 <= i <= drops@.len(),
                all.len() == drops@.len(),
                forall|j: int|
                    0 <= j < all.len() ==> all[j] == (DrawCommandView::ColoredTextAt {
                        x: drops@[j].0,
                        y: drops@[j].1,
                        text: "*"@,
                        color: 31,
                    }),
                gfx.extends(old(gfx), figure + (pool + all.take(i as int))),
                base == old(gfx).recorded(),
            decreases drops.len() - i,
        {
            let drop: U16Point = drops[i];
            gfx.draw_text("*", drop.0, drop.1, 31);
            assert(gfx.recorded() =~= base + (figure + (pool + all.take(i + 1))));
            i = i + 1;
        }
        assert(all.take(drops@.len() as int) =~= all);
        assert(gfx.recorded() =~= base + player_shown(
            sprite_counter,
            x,
            head_row,
            feet_row,
            dead,
            floor,
            drops@,
        ));
    } else {
        assert(gfx.recorded() =~= base + player_shown(
            sprite_counter,
            x,
            head_row,
            feet_row,
            dead,
            floor,
            drops@,
        ));
    }
}

/// Draws the notice that the runner is dead, in the upper third of a
/// terminal wide enough for it.
pub fn draw_game_over(gfx: &mut Gfx)
    requires
        old(gfx).width >= 12,
    ensures
        final(gfx).extends(
            old(gfx),
            seq![
                DrawCommandView::ColoredTextAt {
                    x: (old(gfx).width / 2 - 6) as u16,
                    y: old(gfx).height / 3,
                    text: "-== DEAD ==-"@,
                    color: 91,
                },
            ],
        ),
{
    gfx.draw_text("-== DEAD ==-", gfx.width / 2 - 6, gfx.height / 3, 91);
}

} // verus!
