//! Colors, and the tables of colors that the lamp draws from.

use vstd::prelude::*;

verus! {

/// How many LEDs the tube has.
pub const NUM_LEDS: usize = 86;

/// How many degrees of brightness a warm light has.
pub const NUM_WARM: usize = 256;

/// The brightness that a lamp starts with, a fifth of the greatest.
pub const DEFAULT_BRIGHTNESS: u8 = 51;

/// A color as an LED shows it.
#[derive(Debug, Clone, Copy, PartialEq, Eq, Structural)]
pub struct Rgb {
    pub r: u8,
    pub g: u8,
    pub b: u8,
}

/// The color of a dark LED.
pub open spec fn black() -> Rgb {
    Rgb { r: 0, g: 0, b: 0 }
}

/// The color of a hue, a saturation and a value, as `smart_leds::hsv::hsv2rgb` has it. The hues
/// lie on a circle of six parts. In each part one component has the value, one is as low as
/// the saturation allows, and one rises or falls between the two.
pub open spec fn hsv_rgb(hue: u8, sat: u8, val: u8) -> Rgb {
    let within = hue * 2 % 85 * 3;
    let low = (val * (255 - sat) / 255) as u8;
    let falling = (val * (255 - sat * within / 255) / 255) as u8;
    let rising = (val * (255 - sat * (255 - within) / 255) / 255) as u8;
    if hue <= 42 || hue == 255 {
        Rgb { r: val, g: rising, b: low }
    } else if hue <= 84 {
        Rgb { r: falling, g: val, b: low }
    } else if hue <= 127 {
        Rgb { r: low, g: val, b: rising }
    } else if hue <= 169 {
        Rgb { r: low, g: falling, b: val }
    } else if hue <= 212 {
        Rgb { r: rising, g: low, b: val }
    } else {
        Rgb { r: val, g: low, b: falling }
    }
}

/// The strongest component of a color.
pub open spec fn brightness(color: Rgb) -> u8 {
    if color.r >= color.g && color.r >= color.b {
        color.r
    } else if color.g >= color.b {
        color.g
    } else {
        color.b
    }
}

/// The color at one place of the rainbow, whose hues are spread evenly over the LEDs.
pub open spec fn rainbow_color(index: int) -> Rgb {
    hsv_rgb((index * 255 / NUM_LEDS as int) as u8, 255, 255)
}

/// The warm light of the given brightness.
pub open spec fn warm_color(level: int) -> Rgb {
    hsv_rgb(10, 230, level as u8)
}

/// Calls `smart_leds::hsv::hsv2rgb`. The contract says which color it makes of the three
/// bytes, part of the circle by part.
#[verifier::external_body]
pub(crate) fn hsv2rgb(hue: u8, sat: u8, val: u8) -> (color: Rgb)
    ensures
        color == hsv_rgb(hue, sat, val),
{
    let color = smart_leds::hsv::hsv2rgb(smart_leds::hsv::Hsv { hue, sat, val });
    Rgb { r: color.r, g: color.g, b: color.b }
}

/// The share of a value that a weakening leaves lies between nothing and the value.
proof fn lemma_share(val: int, weakening: int)
    requires
        0 <= val <= 255,
        0 <= weakening <= 255,
    ensures
        0 <= val * (255 - weakening) / 255 <= val,
{
    assert(0 <= val * (255 - weakening) <= val * 255) by (nonlinear_arith)
        requires
            0 <= val,
            0 <= weakening <= 255,
    ;
}

/// The strongest component of a color is its value, whatever its hue and its saturation.
pub proof fn value_is_the_strongest_component(hue: u8, sat: u8, val: u8)
    ensures
        brightness(hsv_rgb(hue, sat, val)) == val,
{
    let within = hue * 2 % 85 * 3;
    assert(0 <= sat * within / 255 <= 255) by (nonlinear_arith)
        requires
            0 <= sat <= 255,
            0 <= within <= 252,
    ;
    assert(0 <= sat * (255 - within) / 255 <= 255) by (nonlinear_arith)
        requires
            0 <= sat <= 255,
            0 <= within <= 252,
    ;
    lemma_share(val as int, sat as int);
    lemma_share(val as int, sat * within / 255);
    lemma_share(val as int, sat * (255 - within) / 255);
}

/// Whether a share is an amount over 255, rounded down.
pub open spec fn is_share(share: int, amount: int) -> bool {
    share * 255 <= amount < (share + 1) * 255
}

/// The circle of hues has six parts of 42 hues and a half. At a turn within a part, one
/// component is full, one has what the saturation leaves of the value, and one is between
/// them: further down the further the turn, or further up. The parts go from red over yellow,
/// green, cyan, blue and magenta back to red.
pub proof fn hues_lie_on_a_circle(
    hue: u8,
    sat: u8,
    val: u8,
    part: int,
    turn: int,
    fading: int,
    growing: int,
)
    requires
        0 <= turn < 85,
        85 * part + turn == 2 * hue,
        is_share(fading, sat * (turn * 3)),
        is_share(growing, sat * (255 - turn * 3)),
    ensures
        ({
            let color = hsv_rgb(hue, sat, val);
            let (full, between, least) = if part == 0 || part == 6 {
                (color.r, color.g, color.b)
            } else if part == 1 {
                (color.g, color.r, color.b)
            } else if part == 2 {
                (color.g, color.b, color.r)
            } else if part == 3 {
                (color.b, color.g, color.r)
            } else if part == 4 {
                (color.b, color.r, color.g)
            } else {
                (color.r, color.b, color.g)
            };
            &&& full == val
            &&& is_share(least as int, val * (255 - sat))
            &&& part % 2 == 0 ==> is_share(between as int, val * (255 - growing))
            &&& part % 2 == 1 ==> is_share(between as int, val * (255 - fading))
        }),
{
    let within = hue * 2 % 85 * 3;
    assert(within == turn * 3);
    assert(fading == sat * within / 255);
    assert(growing == sat * (255 - within) / 255);
    assert(0 <= sat * within / 255 <= 255) by (nonlinear_arith)
        requires
            0 <= sat <= 255,
            0 <= within <= 252,
    ;
    assert(0 <= sat * (255 - within) / 255 <= 255) by (nonlinear_arith)
        requires
            0 <= sat <= 255,
            0 <= within <= 252,
    ;
    lemma_share(val as int, sat as int);
    lemma_share(val as int, fading);
    lemma_share(val as int, growing);
}

/// Warm light is a red with some green and little blue, all of them in proportion to its
/// brightness.
pub proof fn warm_light_is_reddish(level: u8)
    ensures
        warm_color(level as int) == (Rgb {
            r: level,
            g: (level * 80 / 255) as u8,
            b: (level * 25 / 255) as u8,
        }),
{
}

/// The colors of the rainbow are pure: full in one component, and dark in another.
pub proof fn rainbow_is_pure(index: int)
    requires
        0 <= index < NUM_LEDS,
    ensures
        brightness(rainbow_color(index)) == 255,
        ({
            let color = rainbow_color(index);
            color.r == 0 || color.g == 0 || color.b == 0
        }),
{
    value_is_the_strongest_component((index * 255 / NUM_LEDS as int) as u8, 255, 255);
}

/// The colors that the lamp shows again and again, computed once.
#[derive(Debug)]
pub struct Palette {
    rainbow: [Rgb; NUM_LEDS],
    warm: [Rgb; NUM_WARM],
}

impl Palette {
    /// The colors of the rainbow, place by place.
    pub closed spec fn rainbow_table(&self) -> Seq<Rgb> {
        self.rainbow@
    }

    /// The warm lights, from dark to bright.
    pub closed spec fn warm_table(&self) -> Seq<Rgb> {
        self.warm@
    }

    #[verifier::type_invariant]
    spec fn valid(&self) -> bool {
        &&& forall|i: int|
            0 <= i < NUM_LEDS ==> #[trigger] self.rainbow@[i] == rainbow_color(i)
        &&& forall|i: int| 0 <= i < NUM_WARM ==> #[trigger] self.warm@[i] == warm_color(i)
    }

    /// Computes both tables.
    pub fn new() -> (palette: Palette)
        ensures
            palette.rainbow_table() == Seq::new(NUM_LEDS as nat, |i: int| rainbow_color(i)),
            palette.warm_table() == Seq::new(NUM_WARM as nat, |i: int| warm_color(i)),
    {
        let dark = Rgb { r: 0, g: 0, b: 0 };
        let mut rainbow: [Rgb; NUM_LEDS] = [dark; NUM_LEDS];
        let mut warm: [Rgb; NUM_WARM] = [dark; NUM_WARM];
        let mut i: usize = 0;
        while i < NUM_LEDS
            invariant
                0 <= i <= NUM_LEDS,
                forall|j: int| 0 <= j < i ==> #[trigger] rainbow@[j] == rainbow_color(j),
            decreases NUM_LEDS - i,
        {
            rainbow[i] = hsv2rgb((i * 255 / NUM_LEDS) as u8, 255, 255);
            i += 1;
        }
        let mut level: usize = 0;
        while level < NUM_WARM
            invariant
                0 <= level <= NUM_WARM,
                forall|j: int| 0 <= j < level ==> #[trigger] warm@[j] == warm_color(j),
            decreases NUM_WARM - level,
        {
            warm[level] = hsv2rgb(10, 230, level as u8);
            level += 1;
        }
        Palette { rainbow, warm }
    }

    /// The color at one place of the rainbow.
    pub fn rainbow(&self, index: usize) -> (color: Rgb)
        requires
            index < NUM_LEDS,
        ensures
            color == self.rainbow_table()[index as int],
            color == rainbow_color(index as int),
    {
        proof {
            use_type_invariant(self);
        }
        self.rainbow[index]
    }

    /// The warm light of the given brightness.
    pub fn warm(&self, level: u8) -> (color: Rgb)
        ensures
            color == self.warm_table()[level as int],
            color == warm_color(level as int),
    {
        proof {
            use_type_invariant(self);
        }
        self.warm[level as usize]
    }
}

} // verus!
