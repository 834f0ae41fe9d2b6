//! Colours, linear blending and named colour maps.
use vstd::prelude::*;

verus! {

/// An RGBA colour with 8-bit channels.
#[derive(Clone, Copy, Debug, PartialEq, Eq, Structural)]
pub struct Color {
    pub r: u8,
    pub g: u8,
    pub b: u8,
    pub a: u8,
}

impl Color {
    pub fn from_rgb(r: u8, g: u8, b: u8) -> (c: Color)
        ensures
            c == (Color { r, g, b, a: 255 }),
    {
        Color { r, g, b, a: 255 }
    }

    pub fn from_rgba(r: u8, g: u8, b: u8, a: u8) -> (c: Color)
        ensures
            c == (Color { r, g, b, a }),
    {
        Color { r, g, b, a }
    }

    pub fn white() -> (c: Color)
        ensures
            c == (Color { r: 255, g: 255, b: 255, a: 255 }),
    {
        Color { r: 255, g: 255, b: 255, a: 255 }
    }
}

/// Named colour maps for value-based colouring.
#[derive(Clone, Copy, Debug, PartialEq, Eq, Structural)]
pub enum ColormapName {
    /// Perceptually uniform, blue to green to yellow.
    Viridis,
    /// Perceptually uniform, purple to yellow.
    Plasma,
    /// Improved rainbow.
    Turbo,
    /// Black to red to yellow to white.
    Heat,
    /// Black to white.
    Grayscale,
}


/// One channel blended from `a` to `b` by `num / den` (rounded down).
pub open spec fn mix(a: u8, b: u8, num: int, den: int) -> int {
    (a * (den - num) + b * num) / den
}

/// `num` kept within `[0, den]`.
pub open spec fn clamp_num(num: int, den: int) -> int {
    if num < 0 {
        0
    } else if num > den {
        den
    } else {
        num
    }
}

/// The opaque colour `num / den` of the way from `a` to `b`, the fraction
/// held to [0, 1].
pub open spec fn lerp_spec(a: Color, b: Color, num: int, den: int) -> Color {
    let n = clamp_num(num, den);
    Color { r: mix(a.r, b.r, n, den) as u8, g: mix(a.g, b.g, n, den) as u8, b: mix(a.b, b.b, n, den) as u8, a: 255 }
}

fn mix_exec(a: u8, b: u8, num: u128, den: u128) -> (r: u8)
    requires
        0 <= num <= den <= u64::MAX,
        den > 0,
    ensures
        r == mix(a, b, num as int, den as int),
{
    assert((a as u128) * (den - num) <= 255 * u64::MAX) by (nonlinear_arith)
        requires
            a <= 255,
            0 <= den - num <= u64::MAX,
    ;
    assert((b as u128) * num <= 255 * u64::MAX) by (nonlinear_arith)
        requires
            b <= 255,
            0 <= num <= u64::MAX,
    ;
    let x = (a as u128) * (den - num) + (b as u128) * num;
    let q = x / den;
    assert(q <= 255) by (nonlinear_arith)
        requires
            x == a * (den - num) + b * num,
            q == x as int / den as int,
            a <= 255,
            b <= 255,
            0 <= num <= den,
            den > 0,
    {
        assert(x <= 255 * (den - num) + 255 * num);
    }
    q as u8
}

/// Blends two colours linearly by the fraction `num / den`, held to [0, 1];
/// the result is opaque.
pub fn lerp_color(a: Color, b: Color, num: i128, den: u128) -> (c: Color)
    requires
        0 < den <= u64::MAX,
    ensures
        c == lerp_spec(a, b, num as int, den as int),
{
    let n: u128 = if num < 0 {
        0
    } else if num as u128 > den {
        den
    } else {
        num as u128
    };
    Color { r: mix_exec(a.r, b.r, n, den), g: mix_exec(a.g, b.g, n, den), b: mix_exec(a.b, b.b, n, den), a: 255 }
}

/// A colour at a position along a colour map, in thousandths.
#[derive(Clone, Copy, Debug, PartialEq, Eq, Structural)]
pub struct ColorStop {
    pub pos: u64,
    pub color: Color,
}

pub open spec fn stop(pos: u64, r: u8, g: u8, b: u8) -> ColorStop {
    ColorStop { pos, color: Color { r, g, b, a: 255 } }
}

pub open spec fn viridis_stops() -> Seq<ColorStop> {
    seq![
        stop(0, 68, 1, 84),
        stop(250, 72, 36, 117),
        stop(500, 52, 73, 120),
        stop(600, 33, 102, 94),
        stop(750, 134, 130, 38),
        stop(1000, 253, 231, 37),
    ]
}

pub open spec fn plasma_stops() -> Seq<ColorStop> {
    seq![
        stop(0, 13, 8, 135),
        stop(250, 70, 1, 156),
        stop(500, 141, 7, 106),
        stop(600, 195, 48, 55),
        stop(750, 245, 97, 29),
        stop(1000, 240, 249, 33),
    ]
}

pub open spec fn turbo_stops() -> Seq<ColorStop> {
    seq![
        stop(0, 46, 18, 115),
        stop(200, 0, 76, 189),
        stop(400, 0, 199, 222),
        stop(500, 0, 250, 153),
        stop(600, 217, 247, 28),
        stop(800, 247, 110, 0),
        stop(1000, 224, 0, 0),
    ]
}

pub open spec fn heat_stops() -> Seq<ColorStop> {
    seq![
        stop(0, 0, 0, 0),
        stop(250, 128, 0, 0),
        stop(500, 255, 0, 0),
        stop(750, 255, 128, 0),
        stop(1000, 255, 255, 0),
    ]
}

/// Stops that start at 0, end at 1000 and rise strictly.
pub open spec fn stops_ok(s: Seq<ColorStop>) -> bool {
    &&& s.len() >= 2
    &&& s[0].pos == 0
    &&& s.last().pos == 1000
    &&& forall|i: int| 0 <= i < s.len() - 1 ==> #[trigger] s[i].pos < s[i + 1].pos
}

/// The colour between the stops `i` and `i + 1` that enclose `num / den`,
/// searching from stop `i` on.
pub open spec fn segment_color(s: Seq<ColorStop>, i: int, num: int, den: int) -> Color
    decreases s.len() - i,
{
    if i < 0 || i + 1 >= s.len() {
        s.last().color
    } else if num * 1000 <= s[i + 1].pos * den {
        lerp_spec(s[i].color, s[i + 1].color, num * 1000 - s[i].pos * den, (s[i + 1].pos - s[i].pos) * den)
    } else {
        segment_color(s, i + 1, num, den)
    }
}

/// The colour of a palette at `num / den`, held to [0, 1].
pub open spec fn palette_color(s: Seq<ColorStop>, num: int, den: int) -> Color {
    let n = clamp_num(num, den);
    if n * 1000 <= s[0].pos * den {
        s[0].color
    } else if n * 1000 >= s.last().pos * den {
        s.last().color
    } else {
        segment_color(s, 0, n, den)
    }
}

fn sample_palette(palette: &Vec<ColorStop>, num: i64, den: i64) -> (c: Color)
    requires
        stops_ok(palette@),
        0 < den <= COLORMAP_DEN_MAX,
    ensures
        c == palette_color(palette@, num as int, den as int),
{
    let n = if num < 0 {
        0
    } else if num > den {
        den
    } else {
        num
    };
    let len = palette.len();
    let t = (n as i128) * 1000;
    if t <= (palette[0].pos as i128) * (den as i128) {
        return palette[0].color;
    }
    if t >= (palette[len - 1].pos as i128) * (den as i128) {
        return palette[len - 1].color;
    }
    let mut i: usize = 0;
    while i + 1 < len
        invariant
            stops_ok(palette@),
            len == palette@.len(),
            0 <= i < len,
            0 <= n <= den <= COLORMAP_DEN_MAX,
            t == n * 1000,
            t > palette@[i as int].pos * den,
            t > palette@[0].pos * den,
            t < palette@.last().pos * den,
            n == clamp_num(num as int, den as int),
            segment_color(palette@, i as int, n as int, den as int) == segment_color(palette@, 0, n as int, den as int),
        decreases len - i,
    {
        let pos_a = palette[i].pos;
        let pos_b = palette[i + 1].pos;
        assert(pos_a < pos_b);
        assert(pos_b <= 1000) by {
            lemma_stops_below_last(palette@, i + 1);
        }
        assert((pos_b as i128) * (den as i128) <= 1000 * COLORMAP_DEN_MAX) by (nonlinear_arith)
            requires
                0 <= pos_b <= 1000,
                0 < den <= COLORMAP_DEN_MAX,
        ;
        assert((pos_a as i128) * (den as i128) <= 1000 * COLORMAP_DEN_MAX) by (nonlinear_arith)
            requires
                0 <= pos_a <= 1000,
                0 < den <= COLORMAP_DEN_MAX,
        ;
        if t <= (pos_b as i128) * (den as i128) {
            assert(t - pos_a * den <= (pos_b - pos_a) * den) by (nonlinear_arith)
                requires
                    t <= pos_b * den,
            ;
            assert((pos_b - pos_a) * den <= 1000 * COLORMAP_DEN_MAX) by (nonlinear_arith)
                requires
                    0 < pos_b - pos_a <= 1000,
                    0 < den <= COLORMAP_DEN_MAX,
            ;
            assert(0 < (pos_b - pos_a) * den) by (nonlinear_arith)
                requires
                    0 < pos_b - pos_a,
                    0 < den,
            ;
            let ln = t - (pos_a as i128) * (den as i128);
            let ld = ((pos_b - pos_a) as i128 * (den as i128)) as u128;
            return lerp_color(palette[i].color, palette[i + 1].color, ln, ld);
        }
        i = i + 1;
    }
    palette[len - 1].color
}

proof fn lemma_stops_below_last(s: Seq<ColorStop>, k: int)
    requires
        stops_ok(s),
        0 <= k < s.len(),
    ensures
        s[k].pos <= s.last().pos,
    decreases s.len() - k,
{
    if k < s.len() - 1 {
        lemma_stops_below_last(s, k + 1);
    }
}

/// Upper bound on the denominator of a colour-map position.
pub const COLORMAP_DEN_MAX: i64 = 10_000_000_000_000;

pub open spec fn colormap_stops(name: ColormapName) -> Seq<ColorStop> {
    match name {
        ColormapName::Viridis => viridis_stops(),
        ColormapName::Plasma => plasma_stops(),
        ColormapName::Turbo => turbo_stops(),
        ColormapName::Heat => heat_stops(),
        ColormapName::Grayscale => seq![stop(0, 0, 0, 0), stop(1000, 255, 255, 255)],
    }
}

impl ColormapName {
    /// The colour of the map at `num / den`, the fraction held to [0, 1].
    pub open spec fn sample_spec(self, num: int, den: int) -> Color {
        match self {
            ColormapName::Grayscale => {
                let v = (clamp_num(num, den) * 255 / den) as u8;
                Color { r: v, g: v, b: v, a: 255 }
            },
            _ => palette_color(colormap_stops(self), num, den),
        }
    }

    /// Samples the map at the fraction `num / den`, held to [0, 1].
    pub fn sample(&self, num: i64, den: i64) -> (c: Color)
        requires
            0 < den <= COLORMAP_DEN_MAX,
        ensures
            c == self.sample_spec(num as int, den as int),
    {
        match self {
            ColormapName::Grayscale => {
                let n = if num < 0 {
                    0
                } else if num > den {
                    den
                } else {
                    num
                };
                let v = (n as u64) * 255 / (den as u64);
                assert(v <= 255) by (nonlinear_arith)
                    requires
                        v == n * 255 / (den as int),
                        0 <= n <= den,
                        den > 0,
                ;
                Color::from_rgb(v as u8, v as u8, v as u8)
            },
            _ => {
                let palette = palette_of(*self);
                sample_palette(&palette, num, den)
            },
        }
    }
}

fn palette_of(name: ColormapName) -> (p: Vec<ColorStop>)
    requires
        name != ColormapName::Grayscale,
    ensures
        p@ == colormap_stops(name),
        stops_ok(p@),
{
    let p = match name {
        ColormapName::Viridis => vec![
        ColorStop { pos: 0, color: Color { r: 68, g: 1, b: 84, a: 255 } },
        ColorStop { pos: 250, color: Color { r: 72, g: 36, b: 117, a: 255 } },
        ColorStop { pos: 500, color: Color { r: 52, g: 73, b: 120, a: 255 } },
        ColorStop { pos: 600, color: Color { r: 33, g: 102, b: 94, a: 255 } },
        ColorStop { pos: 750, color: Color { r: 134, g: 130, b: 38, a: 255 } },
        ColorStop { pos: 1000, color: Color { r: 253, g: 231, b: 37, a: 255 } },
        ],
        ColormapName::Plasma => vec![
        ColorStop { pos: 0, color: Color { r: 13, g: 8, b: 135, a: 255 } },
        ColorStop { pos: 250, color: Color { r: 70, g: 1, b: 156, a: 255 } },
        ColorStop { pos: 500, color: Color { r: 141, g: 7, b: 106, a: 255 } },
        ColorStop { pos: 600, color: Color { r: 195, g: 48, b: 55, a: 255 } },
        ColorStop { pos: 750, color: Color { r: 245, g: 97, b: 29, a: 255 } },
        ColorStop { pos: 1000, color: Color { r: 240, g: 249, b: 33, a: 255 } },
        ],
        ColormapName::Turbo => vec![
        ColorStop { pos: 0, color: Color { r: 46, g: 18, b: 115, a: 255 } },
        ColorStop { pos: 200, color: Color { r: 0, g: 76, b: 189, a: 255 } },
        ColorStop { pos: 400, color: Color { r: 0, g: 199, b: 222, a: 255 } },
        ColorStop { pos: 500, color: Color { r: 0, g: 250, b: 153, a: 255 } },
        ColorStop { pos: 600, color: Color { r: 217, g: 247, b: 28, a: 255 } },
        ColorStop { pos: 800, color: Color { r: 247, g: 110, b: 0, a: 255 } },
        ColorStop { pos: 1000, color: Color { r: 224, g: 0, b: 0, a: 255 } },
        ],
        ColormapName::Heat => vec![
        ColorStop { pos: 0, color: Color { r: 0, g: 0, b: 0, a: 255 } },
        ColorStop { pos: 250, color: Color { r: 128, g: 0, b: 0, a: 255 } },
        ColorStop { pos: 500, color: Color { r: 255, g: 0, b: 0, a: 255 } },
        ColorStop { pos: 750, color: Color { r: 255, g: 128, b: 0, a: 255 } },
        ColorStop { pos: 1000, color: Color { r: 255, g: 255, b: 0, a: 255 } },
        ],
        ColormapName::Grayscale => vec![
        ColorStop { pos: 0, color: Color { r: 0, g: 0, b: 0, a: 255 } },
        ColorStop { pos: 1000, color: Color { r: 255, g: 255, b: 255, a: 255 } },
        ],
    };
    assert(p@ =~= colormap_stops(name));
    p
}

} // verus!
