//! Colours, the names that stand for them, and the literals that write them.

use crate::assoc::{find, lemma_map_of_agrees, lemma_map_of_keys, map_of};
use crate::decode::{scalar, scalar_of};
use crate::error::{outcome, Error, Fault};
use crate::node::{Node, Tree};
use crate::number::{half, Scalar};
use crate::strings::{hex_byte, lower, parse_hex, same_text, to_lower};
use vstd::prelude::*;

verus! {

/// A colour: red, green, blue and opacity, each meant to lie between nought and one.
///
/// The opacity that counts is `a`, halved `halvings` times.
#[derive(Clone, Copy, Debug, PartialEq, Eq)]
pub struct Color {
    pub r: Scalar,
    pub g: Scalar,
    pub b: Scalar,
    pub a: Scalar,
    pub halvings: u8,
}

impl Color {
    /// The opaque colour of three channels.
    pub open spec fn rgb(r: Scalar, g: Scalar, b: Scalar) -> Color {
        Color { r, g, b, a: Scalar::Integer(1), halvings: 0 }
    }

    /// The colour of three channels and an opacity.
    pub open spec fn rgba(r: Scalar, g: Scalar, b: Scalar, a: Scalar) -> Color {
        Color { r, g, b, a, halvings: 0 }
    }

    /// The opaque colour of three bytes.
    pub open spec fn rgb8(r: u8, g: u8, b: u8) -> Color {
        Color::rgb(Scalar::channel(r), Scalar::channel(g), Scalar::channel(b))
    }

    /// The colour of three bytes and an opacity.
    pub open spec fn rgba8(r: u8, g: u8, b: u8, a: Scalar) -> Color {
        Color::rgba(Scalar::channel(r), Scalar::channel(g), Scalar::channel(b), a)
    }

    /// The opaque colour whose three channels are all `n` hundredths.
    pub open spec fn gray(n: u8) -> Color {
        Color::rgb(Scalar::hundredths(n), Scalar::hundredths(n), Scalar::hundredths(n))
    }

    /// Black.
    pub open spec fn black() -> Color {
        Color::rgb(Scalar::Integer(0), Scalar::Integer(0), Scalar::Integer(0))
    }

    /// White.
    pub open spec fn white() -> Color {
        Color::rgb(Scalar::Integer(1), Scalar::Integer(1), Scalar::Integer(1))
    }

    /// Black without any opacity.
    pub open spec fn transparent() -> Color {
        Color::rgba(
            Scalar::Integer(0),
            Scalar::Integer(0),
            Scalar::Integer(0),
            Scalar::Integer(0),
        )
    }

    /// This colour at half its opacity.
    ///
    /// A colour that has been halved 255 times stays as it is.
    pub open spec fn faded(self) -> Color {
        Color {
            halvings: if self.halvings < 255 {
                (self.halvings + 1) as u8
            } else {
                self.halvings
            },
            ..self
        }
    }

    /// The opacity of this colour: what `a` stands for, halved `halvings` times.
    pub open spec fn opacity(self) -> Option<real> {
        halved(self.a.value(), self.halvings as nat)
    }

    /// This colour with another opacity.
    pub open spec fn with_alpha(self, a: Scalar) -> Color {
        Color { a, halvings: 0, ..self }
    }

    /// The opaque colour of three channels.
    pub fn from_rgb(r: Scalar, g: Scalar, b: Scalar) -> (c: Color)
        ensures
            c == Color::rgb(r, g, b),
    {
        Color { r, g, b, a: Scalar::Integer(1), halvings: 0 }
    }

    /// The colour of three channels and an opacity.
    pub fn from_rgba(r: Scalar, g: Scalar, b: Scalar, a: Scalar) -> (c: Color)
        ensures
            c == Color::rgba(r, g, b, a),
    {
        Color { r, g, b, a, halvings: 0 }
    }

    /// The opaque colour of three bytes.
    pub fn from_rgb8(r: u8, g: u8, b: u8) -> (c: Color)
        ensures
            c == Color::rgb8(r, g, b),
    {
        Color::from_rgb(Scalar::Ratio(r, 255), Scalar::Ratio(g, 255), Scalar::Ratio(b, 255))
    }

    /// The colour of three bytes and an opacity.
    pub fn from_rgba8(r: u8, g: u8, b: u8, a: Scalar) -> (c: Color)
        ensures
            c == Color::rgba8(r, g, b, a),
    {
        Color::from_rgba(Scalar::Ratio(r, 255), Scalar::Ratio(g, 255), Scalar::Ratio(b, 255), a)
    }

    /// The opaque colour whose three channels are all `n` hundredths.
    pub fn from_gray(n: u8) -> (c: Color)
        ensures
            c == Color::gray(n),
    {
        Color::from_rgb(Scalar::Ratio(n, 100), Scalar::Ratio(n, 100), Scalar::Ratio(n, 100))
    }

    /// Black.
    pub fn from_black() -> (c: Color)
        ensures
            c == Color::black(),
    {
        Color::from_rgb(Scalar::Integer(0), Scalar::Integer(0), Scalar::Integer(0))
    }

    /// White.
    pub fn from_white() -> (c: Color)
        ensures
            c == Color::white(),
    {
        Color::from_rgb(Scalar::Integer(1), Scalar::Integer(1), Scalar::Integer(1))
    }

    /// Black without any opacity.
    pub fn from_transparent() -> (c: Color)
        ensures
            c == Color::transparent(),
    {
        Color::from_rgba(
            Scalar::Integer(0),
            Scalar::Integer(0),
            Scalar::Integer(0),
            Scalar::Integer(0),
        )
    }

    /// This colour at half its opacity.
    pub fn fade(self) -> (c: Color)
        ensures
            c == self.faded(),
    {
        let halvings = if self.halvings < 255 {
            self.halvings + 1
        } else {
            self.halvings
        };
        Color { r: self.r, g: self.g, b: self.b, a: self.a, halvings }
    }
}

/// `x` halved `n` times.
pub open spec fn halved(x: Option<real>, n: nat) -> Option<real>
    decreases n,
{
    if n == 0 {
        x
    } else {
        half(halved(x, (n - 1) as nat))
    }
}

/// A colour that fades keeps its channels and has half its opacity, as long as it has been
/// halved fewer than 255 times.
pub proof fn lemma_fading_halves(c: Color)
    requires
        c.halvings < 255,
    ensures
        c.faded().opacity() == half(c.opacity()),
        c.faded().r == c.r,
        c.faded().g == c.g,
        c.faded().b == c.b,
{
}

/// The colour of three bytes has each byte divided by 255 for a channel, and is opaque.
pub proof fn lemma_channels_of_bytes(r: u8, g: u8, b: u8)
    ensures
        Color::rgb8(r, g, b).r.value() == Some((r as int as real) / 255real),
        Color::rgb8(r, g, b).g.value() == Some((g as int as real) / 255real),
        Color::rgb8(r, g, b).b.value() == Some((b as int as real) / 255real),
        Color::rgb8(r, g, b).opacity() == Some(1real),
{
}

/// What fills the area of a widget.
#[derive(Clone, Copy, Debug, PartialEq, Eq)]
pub struct Background {
    pub color: Color,
}

impl Background {
    /// A filling of one colour.
    pub open spec fn of(color: Color) -> Background {
        Background { color }
    }

    /// This filling at half its opacity.
    pub open spec fn faded(self) -> Background {
        Background { color: self.color.faded() }
    }

    /// A filling of one colour.
    pub fn solid(color: Color) -> (r: Background)
        ensures
            r == Background::of(color),
    {
        Background { color }
    }

    /// This filling at half its opacity.
    pub fn fade(self) -> (r: Background)
        ensures
            r == self.faded(),
    {
        Background { color: self.color.fade() }
    }
}

/// The colour that the library itself gives to a name in lower case.
///
/// These are the colour keywords of CSS, each with the three bytes that CSS gives it.
pub open spec fn builtin(name: Seq<char>) -> Option<Color> {
    if name == "aliceblue"@ {
        Some(Color::rgb8(240, 248, 255))
    } else if name == "antiquewhite"@ {
        Some(Color::rgb8(250, 235, 215))
    } else if name == "aqua"@ {
        Some(Color::rgb8(0, 255, 255))
    } else if name == "aquamarine"@ {
        Some(Color::rgb8(127, 255, 212))
    } else if name == "azure"@ {
        Some(Color::rgb8(240, 255, 255))
    } else if name == "beige"@ {
        Some(Color::rgb8(245, 245, 220))
    } else if name == "bisque"@ {
        Some(Color::rgb8(255, 228, 196))
    } else if name == "black"@ {
        Some(Color::rgb8(0, 0, 0))
    } else if name == "blanchedalmond"@ {
        Some(Color::rgb8(255, 235, 205))
    } else if name == "blue"@ {
        Some(Color::rgb8(0, 0, 255))
    } else if name == "blueviolet"@ {
        Some(Color::rgb8(138, 43, 226))
    } else if name == "brown"@ {
        Some(Color::rgb8(165, 42, 42))
    } else if name == "burlywood"@ {
        Some(Color::rgb8(222, 184, 135))
    } else if name == "cadetblue"@ {
        Some(Color::rgb8(95, 158, 160))
    } else if name == "chartreuse"@ {
        Some(Color::rgb8(127, 255, 0))
    } else if name == "chocolate"@ {
        Some(Color::rgb8(210, 105, 30))
    } else if name == "coral"@ {
        Some(Color::rgb8(255, 127, 80))
    } else if name == "cornflowerblue"@ {
        Some(Color::rgb8(100, 149, 237))
    } else if name == "cornsilk"@ {
        Some(Color::rgb8(255, 248, 220))
    } else if name == "crimson"@ {
        Some(Color::rgb8(220, 20, 60))
    } else if name == "cyan"@ {
        Some(Color::rgb8(0, 255, 255))
    } else if name == "darkblue"@ {
        Some(Color::rgb8(0, 0, 139))
    } else if name == "darkcyan"@ {
        Some(Color::rgb8(0, 139, 139))
    } else if name == "darkgoldenrod"@ {
        Some(Color::rgb8(184, 134, 11))
    } else if name == "darkgray"@ {
        Some(Color::rgb8(169, 169, 169))
    } else if name == "darkgreen"@ {
        Some(Color::rgb8(0, 100, 0))
    } else if name == "darkgrey"@ {
        Some(Color::rgb8(169, 169, 169))
    } else if name == "darkkhaki"@ {
        Some(Color::rgb8(189, 183, 107))
    } else if name == "darkmagenta"@ {
        Some(Color::rgb8(139, 0, 139))
    } else if name == "darkolivegreen"@ {
        Some(Color::rgb8(85, 107, 47))
    } else if name == "darkorange"@ {
        Some(Color::rgb8(255, 140, 0))
    } else if name == "darkorchid"@ {
        Some(Color::rgb8(153, 50, 204))
    } else if name == "darkred"@ {
        Some(Color::rgb8(139, 0, 0))
    } else if name == "darksalmon"@ {
        Some(Color::rgb8(233, 150, 122))
    } else if name == "darkseagreen"@ {
        Some(Color::rgb8(143, 188, 143))
    } else if name == "darkslateblue"@ {
        Some(Color::rgb8(72, 61, 139))
    } else if name == "darkslategray"@ {
        Some(Color::rgb8(47, 79, 79))
    } else if name == "darkslategrey"@ {
        Some(Color::rgb8(47, 79, 79))
    } else if name == "darkturquoise"@ {
        Some(Color::rgb8(0, 206, 209))
    } else if name == "darkviolet"@ {
        Some(Color::rgb8(148, 0, 211))
    } else if name == "deeppink"@ {
        Some(Color::rgb8(255, 20, 147))
    } else if name == "deepskyblue"@ {
        Some(Color::rgb8(0, 191, 255))
    } else if name == "dimgray"@ {
        Some(Color::rgb8(105, 105, 105))
    } else if name == "dimgrey"@ {
        Some(Color::rgb8(105, 105, 105))
    } else if name == "dodgerblue"@ {
        Some(Color::rgb8(30, 144, 255))
    } else if name == "firebrick"@ {
        Some(Color::rgb8(178, 34, 34))
    } else if name == "floralwhite"@ {
        Some(Color::rgb8(255, 250, 240))
    } else if name == "forestgreen"@ {
        Some(Color::rgb8(34, 139, 34))
    } else if name == "fuchsia"@ {
        Some(Color::rgb8(255, 0, 255))
    } else if name == "gainsboro"@ {
        Some(Color::rgb8(220, 220, 220))
    } else if name == "ghostwhite"@ {
        Some(Color::rgb8(248, 248, 255))
    } else if name == "gold"@ {
        Some(Color::rgb8(255, 215, 0))
    } else if name == "goldenrod"@ {
        Some(Color::rgb8(218, 165, 32))
    } else if name == "gray"@ {
        Some(Color::rgb8(128, 128, 128))
    } else if name == "green"@ {
        Some(Color::rgb8(0, 128, 0))
    } else if name == "greenyellow"@ {
        Some(Color::rgb8(173, 255, 47))
    } else if name == "grey"@ {
        Some(Color::rgb8(128, 128, 128))
    } else if name == "honeydew"@ {
        Some(Color::rgb8(240, 255, 240))
    } else if name == "hotpink"@ {
        Some(Color::rgb8(255, 105, 180))
    } else if name == "indianred"@ {
        Some(Color::rgb8(205, 92, 92))
    } else if name == "indigo"@ {
        Some(Color::rgb8(75, 0, 130))
    } else if name == "ivory"@ {
        Some(Color::rgb8(255, 255, 240))
    } else if name == "khaki"@ {
        Some(Color::rgb8(240, 230, 140))
    } else if name == "lavender"@ {
        Some(Color::rgb8(230, 230, 250))
    } else if name == "lavenderblush"@ {
        Some(Color::rgb8(255, 240, 245))
    } else if name == "lawngreen"@ {
        Some(Color::rgb8(124, 252, 0))
    } else if name == "lemonchiffon"@ {
        Some(Color::rgb8(255, 250, 205))
    } else if name == "lightblue"@ {
        Some(Color::rgb8(173, 216, 230))
    } else if name == "lightcoral"@ {
        Some(Color::rgb8(240, 128, 128))
    } else if name == "lightcyan"@ {
        Some(Color::rgb8(224, 255, 255))
    } else if name == "lightgoldenrodyellow"@ {
        Some(Color::rgb8(250, 250, 210))
    } else if name == "lightgray"@ {
        Some(Color::rgb8(211, 211, 211))
    } else if name == "lightgreen"@ {
        Some(Color::rgb8(144, 238, 144))
    } else if name == "lightgrey"@ {
        Some(Color::rgb8(211, 211, 211))
    } else if name == "lightpink"@ {
        Some(Color::rgb8(255, 182, 193))
    } else if name == "lightsalmon"@ {
        Some(Color::rgb8(255, 160, 122))
    } else if name == "lightseagreen"@ {
        Some(Color::rgb8(32, 178, 170))
    } else if name == "lightskyblue"@ {
        Some(Color::rgb8(135, 206, 250))
    } else if name == "lightslategray"@ {
        Some(Color::rgb8(119, 136, 153))
    } else if name == "lightslategrey"@ {
        Some(Color::rgb8(119, 136, 153))
    } else if name == "lightsteelblue"@ {
        Some(Color::rgb8(176, 196, 222))
    } else if name == "lightyellow"@ {
        Some(Color::rgb8(255, 255, 224))
    } else if name == "lime"@ {
        Some(Color::rgb8(0, 255, 0))
    } else if name == "limegreen"@ {
        Some(Color::rgb8(50, 205, 50))
    } else if name == "linen"@ {
        Some(Color::rgb8(250, 240, 230))
    } else if name == "magenta"@ {
        Some(Color::rgb8(255, 0, 255))
    } else if name == "maroon"@ {
        Some(Color::rgb8(128, 0, 0))
    } else if name == "mediumaquamarine"@ {
        Some(Color::rgb8(102, 205, 170))
    } else if name == "mediumblue"@ {
        Some(Color::rgb8(0, 0, 205))
    } else if name == "mediumorchid"@ {
        Some(Color::rgb8(186, 85, 211))
    } else if name == "mediumpurple"@ {
        Some(Color::rgb8(147, 112, 219))
    } else if name == "mediumseagreen"@ {
        Some(Color::rgb8(60, 179, 113))
    } else if name == "mediumslateblue"@ {
        Some(Color::rgb8(123, 104, 238))
    } else if name == "mediumspringgreen"@ {
        Some(Color::rgb8(0, 250, 154))
    } else if name == "mediumturquoise"@ {
        Some(Color::rgb8(72, 209, 204))
    } else if name == "mediumvioletred"@ {
        Some(Color::rgb8(199, 21, 133))
    } else if name == "midnightblue"@ {
        Some(Color::rgb8(25, 25, 112))
    } else if name == "mintcream"@ {
        Some(Color::rgb8(245, 255, 250))
    } else if name == "mistyrose"@ {
        Some(Color::rgb8(255, 228, 225))
    } else if name == "moccasin"@ {
        Some(Color::rgb8(255, 228, 181))
    } else if name == "navajowhite"@ {
        Some(Color::rgb8(255, 222, 173))
    } else if name == "navy"@ {
        Some(Color::rgb8(0, 0, 128))
    } else if name == "oldlace"@ {
        Some(Color::rgb8(253, 245, 230))
    } else if name == "olive"@ {
        Some(Color::rgb8(128, 128, 0))
    } else if name == "olivedrab"@ {
        Some(Color::rgb8(107, 142, 35))
    } else if name == "orange"@ {
        Some(Color::rgb8(255, 165, 0))
    } else if name == "orangered"@ {
        Some(Color::rgb8(255, 69, 0))
    } else if name == "orchid"@ {
        Some(Color::rgb8(218, 112, 214))
    } else if name == "palegoldenrod"@ {
        Some(Color::rgb8(238, 232, 170))
    } else if name == "palegreen"@ {
        Some(Color::rgb8(152, 251, 152))
    } else if name == "paleturquoise"@ {
        Some(Color::rgb8(175, 238, 238))
    } else if name == "palevioletred"@ {
        Some(Color::rgb8(219, 112, 147))
    } else if name == "papayawhip"@ {
        Some(Color::rgb8(255, 239, 213))
    } else if name == "peachpuff"@ {
        Some(Color::rgb8(255, 218, 185))
    } else if name == "peru"@ {
        Some(Color::rgb8(205, 133, 63))
    } else if name == "pink"@ {
        Some(Color::rgb8(255, 192, 203))
    } else if name == "plum"@ {
        Some(Color::rgb8(221, 160, 221))
    } else if name == "powderblue"@ {
        Some(Color::rgb8(176, 224, 230))
    } else if name == "purple"@ {
        Some(Color::rgb8(128, 0, 128))
    } else if name == "red"@ {
        Some(Color::rgb8(255, 0, 0))
    } else if name == "rosybrown"@ {
        Some(Color::rgb8(188, 143, 143))
    } else if name == "royalblue"@ {
        Some(Color::rgb8(65, 105, 225))
    } else if name == "saddlebrown"@ {
        Some(Color::rgb8(139, 69, 19))
    } else if name == "salmon"@ {
        Some(Color::rgb8(250, 128, 114))
    } else if name == "sandybrown"@ {
        Some(Color::rgb8(244, 164, 96))
    } else if name == "seagreen"@ {
        Some(Color::rgb8(46, 139, 87))
    } else if name == "seashell"@ {
        Some(Color::rgb8(255, 245, 238))
    } else if name == "sienna"@ {
        Some(Color::rgb8(160, 82, 45))
    } else if name == "silver"@ {
        Some(Color::rgb8(192, 192, 192))
    } else if name == "skyblue"@ {
        Some(Color::rgb8(135, 206, 235))
    } else if name == "slateblue"@ {
        Some(Color::rgb8(106, 90, 205))
    } else if name == "slategray"@ {
        Some(Color::rgb8(112, 128, 144))
    } else if name == "slategrey"@ {
        Some(Color::rgb8(112, 128, 144))
    } else if name == "snow"@ {
        Some(Color::rgb8(255, 250, 250))
    } else if name == "springgreen"@ {
        Some(Color::rgb8(0, 255, 127))
    } else if name == "steelblue"@ {
        Some(Color::rgb8(70, 130, 180))
    } else if name == "tan"@ {
        Some(Color::rgb8(210, 180, 140))
    } else if name == "teal"@ {
        Some(Color::rgb8(0, 128, 128))
    } else if name == "thistle"@ {
        Some(Color::rgb8(216, 191, 216))
    } else if name == "tomato"@ {
        Some(Color::rgb8(255, 99, 71))
    } else if name == "turquoise"@ {
        Some(Color::rgb8(64, 224, 208))
    } else if name == "violet"@ {
        Some(Color::rgb8(238, 130, 238))
    } else if name == "wheat"@ {
        Some(Color::rgb8(245, 222, 179))
    } else if name == "white"@ {
        Some(Color::rgb8(255, 255, 255))
    } else if name == "whitesmoke"@ {
        Some(Color::rgb8(245, 245, 245))
    } else if name == "yellow"@ {
        Some(Color::rgb8(255, 255, 0))
    } else if name == "yellowgreen"@ {
        Some(Color::rgb8(154, 205, 50))
    } else {
        None
    }
}

/// Looks a name in lower case up among the built-in colours.
pub fn builtin_color(name: &str) -> (r: Option<Color>)
    ensures
        r == builtin(name@),
{
    if same_text(name, "aliceblue") {
        Some(Color::from_rgb8(240, 248, 255))
    } else if same_text(name, "antiquewhite") {
        Some(Color::from_rgb8(250, 235, 215))
    } else if same_text(name, "aqua") {
        Some(Color::from_rgb8(0, 255, 255))
    } else if same_text(name, "aquamarine") {
        Some(Color::from_rgb8(127, 255, 212))
    } else if same_text(name, "azure") {
        Some(Color::from_rgb8(240, 255, 255))
    } else if same_text(name, "beige") {
        Some(Color::from_rgb8(245, 245, 220))
    } else if same_text(name, "bisque") {
        Some(Color::from_rgb8(255, 228, 196))
    } else if same_text(name, "black") {
        Some(Color::from_rgb8(0, 0, 0))
    } else if same_text(name, "blanchedalmond") {
        Some(Color::from_rgb8(255, 235, 205))
    } else if same_text(name, "blue") {
        Some(Color::from_rgb8(0, 0, 255))
    } else if same_text(name, "blueviolet") {
        Some(Color::from_rgb8(138, 43, 226))
    } else if same_text(name, "brown") {
        Some(Color::from_rgb8(165, 42, 42))
    } else if same_text(name, "burlywood") {
        Some(Color::from_rgb8(222, 184, 135))
    } else if same_text(name, "cadetblue") {
        Some(Color::from_rgb8(95, 158, 160))
    } else if same_text(name, "chartreuse") {
        Some(Color::from_rgb8(127, 255, 0))
    } else if same_text(name, "chocolate") {
        Some(Color::from_rgb8(210, 105, 30))
    } else if same_text(name, "coral") {
        Some(Color::from_rgb8(255, 127, 80))
    } else if same_text(name, "cornflowerblue") {
        Some(Color::from_rgb8(100, 149, 237))
    } else if same_text(name, "cornsilk") {
        Some(Color::from_rgb8(255, 248, 220))
    } else if same_text(name, "crimson") {
        Some(Color::from_rgb8(220, 20, 60))
    } else if same_text(name, "cyan") {
        Some(Color::from_rgb8(0, 255, 255))
    } else if same_text(name, "darkblue") {
        Some(Color::from_rgb8(0, 0, 139))
    } else if same_text(name, "darkcyan") {
        Some(Color::from_rgb8(0, 139, 139))
    } else if same_text(name, "darkgoldenrod") {
        Some(Color::from_rgb8(184, 134, 11))
    } else if same_text(name, "darkgray") {
        Some(Color::from_rgb8(169, 169, 169))
    } else if same_text(name, "darkgreen") {
        Some(Color::from_rgb8(0, 100, 0))
    } else if same_text(name, "darkgrey") {
        Some(Color::from_rgb8(169, 169, 169))
    } else if same_text(name, "darkkhaki") {
        Some(Color::from_rgb8(189, 183, 107))
    } else if same_text(name, "darkmagenta") {
        Some(Color::from_rgb8(139, 0, 139))
    } else if same_text(name, "darkolivegreen") {
        Some(Color::from_rgb8(85, 107, 47))
    } else if same_text(name, "darkorange") {
        Some(Color::from_rgb8(255, 140, 0))
    } else if same_text(name, "darkorchid") {
        Some(Color::from_rgb8(153, 50, 204))
    } else if same_text(name, "darkred") {
        Some(Color::from_rgb8(139, 0, 0))
    } else if same_text(name, "darksalmon") {
        Some(Color::from_rgb8(233, 150, 122))
    } else if same_text(name, "darkseagreen") {
        Some(Color::from_rgb8(143, 188, 143))
    } else if same_text(name, "darkslateblue") {
        Some(Color::from_rgb8(72, 61, 139))
    } else if same_text(name, "darkslategray") {
        Some(Color::from_rgb8(47, 79, 79))
    } else if same_text(name, "darkslategrey") {
        Some(Color::from_rgb8(47, 79, 79))
    } else if same_text(name, "darkturquoise") {
        Some(Color::from_rgb8(0, 206, 209))
    } else if same_text(name, "darkviolet") {
        Some(Color::from_rgb8(148, 0, 211))
    } else if same_text(name, "deeppink") {
        Some(Color::from_rgb8(255, 20, 147))
    } else if same_text(name, "deepskyblue") {
        Some(Color::from_rgb8(0, 191, 255))
    } else if same_text(name, "dimgray") {
        Some(Color::from_rgb8(105, 105, 105))
    } else if same_text(name, "dimgrey") {
        Some(Color::from_rgb8(105, 105, 105))
    } else if same_text(name, "dodgerblue") {
        Some(Color::from_rgb8(30, 144, 255))
    } else if same_text(name, "firebrick") {
        Some(Color::from_rgb8(178, 34, 34))
    } else if same_text(name, "floralwhite") {
        Some(Color::from_rgb8(255, 250, 240))
    } else if same_text(name, "forestgreen") {
        Some(Color::from_rgb8(34, 139, 34))
    } else if same_text(name, "fuchsia") {
        Some(Color::from_rgb8(255, 0, 255))
    } else if same_text(name, "gainsboro") {
        Some(Color::from_rgb8(220, 220, 220))
    } else if same_text(name, "ghostwhite") {
        Some(Color::from_rgb8(248, 248, 255))
    } else if same_text(name, "gold") {
        Some(Color::from_rgb8(255, 215, 0))
    } else if same_text(name, "goldenrod") {
        Some(Color::from_rgb8(218, 165, 32))
    } else if same_text(name, "gray") {
        Some(Color::from_rgb8(128, 128, 128))
    } else if same_text(name, "green") {
        Some(Color::from_rgb8(0, 128, 0))
    } else if same_text(name, "greenyellow") {
        Some(Color::from_rgb8(173, 255, 47))
    } else if same_text(name, "grey") {
        Some(Color::from_rgb8(128, 128, 128))
    } else if same_text(name, "honeydew") {
        Some(Color::from_rgb8(240, 255, 240))
    } else if same_text(name, "hotpink") {
        Some(Color::from_rgb8(255, 105, 180))
    } else if same_text(name, "indianred") {
        Some(Color::from_rgb8(205, 92, 92))
    } else if same_text(name, "indigo") {
        Some(Color::from_rgb8(75, 0, 130))
    } else if same_text(name, "ivory") {
        Some(Color::from_rgb8(255, 255, 240))
    } else if same_text(name, "khaki") {
        Some(Color::from_rgb8(240, 230, 140))
    } else if same_text(name, "lavender") {
        Some(Color::from_rgb8(230, 230, 250))
    } else if same_text(name, "lavenderblush") {
        Some(Color::from_rgb8(255, 240, 245))
    } else if same_text(name, "lawngreen") {
        Some(Color::from_rgb8(124, 252, 0))
    } else if same_text(name, "lemonchiffon") {
        Some(Color::from_rgb8(255, 250, 205))
    } else if same_text(name, "lightblue") {
        Some(Color::from_rgb8(173, 216, 230))
    } else if same_text(name, "lightcoral") {
        Some(Color::from_rgb8(240, 128, 128))
    } else if same_text(name, "lightcyan") {
        Some(Color::from_rgb8(224, 255, 255))
    } else if same_text(name, "lightgoldenrodyellow") {
        Some(Color::from_rgb8(250, 250, 210))
    } else if same_text(name, "lightgray") {
        Some(Color::from_rgb8(211, 211, 211))
    } else if same_text(name, "lightgreen") {
        Some(Color::from_rgb8(144, 238, 144))
    } else if same_text(name, "lightgrey") {
        Some(Color::from_rgb8(211, 211, 211))
    } else if same_text(name, "lightpink") {
        Some(Color::from_rgb8(255, 182, 193))
    } else if same_text(name, "lightsalmon") {
        Some(Color::from_rgb8(255, 160, 122))
    } else if same_text(name, "lightseagreen") {
        Some(Color::from_rgb8(32, 178, 170))
    } else if same_text(name, "lightskyblue") {
        Some(Color::from_rgb8(135, 206, 250))
    } else if same_text(name, "lightslategray") {
        Some(Color::from_rgb8(119, 136, 153))
    } else if same_text(name, "lightslategrey") {
        Some(Color::from_rgb8(119, 136, 153))
    } else if same_text(name, "lightsteelblue") {
        Some(Color::from_rgb8(176, 196, 222))
    } else if same_text(name, "lightyellow") {
        Some(Color::from_rgb8(255, 255, 224))
    } else if same_text(name, "lime") {
        Some(Color::from_rgb8(0, 255, 0))
    } else if same_text(name, "limegreen") {
        Some(Color::from_rgb8(50, 205, 50))
    } else if same_text(name, "linen") {
        Some(Color::from_rgb8(250, 240, 230))
    } else if same_text(name, "magenta") {
        Some(Color::from_rgb8(255, 0, 255))
    } else if same_text(name, "maroon") {
        Some(Color::from_rgb8(128, 0, 0))
    } else if same_text(name, "mediumaquamarine") {
        Some(Color::from_rgb8(102, 205, 170))
    } else if same_text(name, "mediumblue") {
        Some(Color::from_rgb8(0, 0, 205))
    } else if same_text(name, "mediumorchid") {
        Some(Color::from_rgb8(186, 85, 211))
    } else if same_text(name, "mediumpurple") {
        Some(Color::from_rgb8(147, 112, 219))
    } else if same_text(name, "mediumseagreen") {
        Some(Color::from_rgb8(60, 179, 113))
    } else if same_text(name, "mediumslateblue") {
        Some(Color::from_rgb8(123, 104, 238))
    } else if same_text(name, "mediumspringgreen") {
        Some(Color::from_rgb8(0, 250, 154))
    } else if same_text(name, "mediumturquoise") {
        Some(Color::from_rgb8(72, 209, 204))
    } else if same_text(name, "mediumvioletred") {
        Some(Color::from_rgb8(199, 21, 133))
    } else if same_text(name, "midnightblue") {
        Some(Color::from_rgb8(25, 25, 112))
    } else if same_text(name, "mintcream") {
        Some(Color::from_rgb8(245, 255, 250))
    } else if same_text(name, "mistyrose") {
        Some(Color::from_rgb8(255, 228, 225))
    } else if same_text(name, "moccasin") {
        Some(Color::from_rgb8(255, 228, 181))
    } else if same_text(name, "navajowhite") {
        Some(Color::from_rgb8(255, 222, 173))
    } else if same_text(name, "navy") {
        Some(Color::from_rgb8(0, 0, 128))
    } else if same_text(name, "oldlace") {
        Some(Color::from_rgb8(253, 245, 230))
    } else if same_text(name, "olive") {
        Some(Color::from_rgb8(128, 128, 0))
    } else if same_text(name, "olivedrab") {
        Some(Color::from_rgb8(107, 142, 35))
    } else if same_text(name, "orange") {
        Some(Color::from_rgb8(255, 165, 0))
    } else if same_text(name, "orangered") {
        Some(Color::from_rgb8(255, 69, 0))
    } else if same_text(name, "orchid") {
        Some(Color::from_rgb8(218, 112, 214))
    } else if same_text(name, "palegoldenrod") {
        Some(Color::from_rgb8(238, 232, 170))
    } else if same_text(name, "palegreen") {
        Some(Color::from_rgb8(152, 251, 152))
    } else if same_text(name, "paleturquoise") {
        Some(Color::from_rgb8(175, 238, 238))
    } else if same_text(name, "palevioletred") {
        Some(Color::from_rgb8(219, 112, 147))
    } else if same_text(name, "papayawhip") {
        Some(Color::from_rgb8(255, 239, 213))
    } else if same_text(name, "peachpuff") {
        Some(Color::from_rgb8(255, 218, 185))
    } else if same_text(name, "peru") {
        Some(Color::from_rgb8(205, 133, 63))
    } else if same_text(name, "pink") {
        Some(Color::from_rgb8(255, 192, 203))
    } else if same_text(name, "plum") {
        Some(Color::from_rgb8(221, 160, 221))
    } else if same_text(name, "powderblue") {
        Some(Color::from_rgb8(176, 224, 230))
    } else if same_text(name, "purple") {
        Some(Color::from_rgb8(128, 0, 128))
    } else if same_text(name, "red") {
        Some(Color::from_rgb8(255, 0, 0))
    } else if same_text(name, "rosybrown") {
        Some(Color::from_rgb8(188, 143, 143))
    } else if same_text(name, "royalblue") {
        Some(Color::from_rgb8(65, 105, 225))
    } else if same_text(name, "saddlebrown") {
        Some(Color::from_rgb8(139, 69, 19))
    } else if same_text(name, "salmon") {
        Some(Color::from_rgb8(250, 128, 114))
    } else if same_text(name, "sandybrown") {
        Some(Color::from_rgb8(244, 164, 96))
    } else if same_text(name, "seagreen") {
        Some(Color::from_rgb8(46, 139, 87))
    } else if same_text(name, "seashell") {
        Some(Color::from_rgb8(255, 245, 238))
    } else if same_text(name, "sienna") {
        Some(Color::from_rgb8(160, 82, 45))
    } else if same_text(name, "silver") {
        Some(Color::from_rgb8(192, 192, 192))
    } else if same_text(name, "skyblue") {
        Some(Color::from_rgb8(135, 206, 235))
    } else if same_text(name, "slateblue") {
        Some(Color::from_rgb8(106, 90, 205))
    } else if same_text(name, "slategray") {
        Some(Color::from_rgb8(112, 128, 144))
    } else if same_text(name, "slategrey") {
        Some(Color::from_rgb8(112, 128, 144))
    } else if same_text(name, "snow") {
        Some(Color::from_rgb8(255, 250, 250))
    } else if same_text(name, "springgreen") {
        Some(Color::from_rgb8(0, 255, 127))
    } else if same_text(name, "steelblue") {
        Some(Color::from_rgb8(70, 130, 180))
    } else if same_text(name, "tan") {
        Some(Color::from_rgb8(210, 180, 140))
    } else if same_text(name, "teal") {
        Some(Color::from_rgb8(0, 128, 128))
    } else if same_text(name, "thistle") {
        Some(Color::from_rgb8(216, 191, 216))
    } else if same_text(name, "tomato") {
        Some(Color::from_rgb8(255, 99, 71))
    } else if same_text(name, "turquoise") {
        Some(Color::from_rgb8(64, 224, 208))
    } else if same_text(name, "violet") {
        Some(Color::from_rgb8(238, 130, 238))
    } else if same_text(name, "wheat") {
        Some(Color::from_rgb8(245, 222, 179))
    } else if same_text(name, "white") {
        Some(Color::from_rgb8(255, 255, 255))
    } else if same_text(name, "whitesmoke") {
        Some(Color::from_rgb8(245, 245, 245))
    } else if same_text(name, "yellow") {
        Some(Color::from_rgb8(255, 255, 0))
    } else if same_text(name, "yellowgreen") {
        Some(Color::from_rgb8(154, 205, 50))
    } else {
        None
    }
}

/// The colours that a document names, each under its name in lower case.
#[derive(Debug)]
pub struct ColorMap {
    entries: Vec<(String, Color)>,
}

/// The map that the first `n` entries make with their names in lower case, a later entry
/// replacing an earlier one of its name.
pub open spec fn lowered_map_of(entries: Seq<(String, Color)>, n: nat) -> Map<Seq<char>, Color>
    decreases n,
{
    if n == 0 {
        Map::empty()
    } else {
        lowered_map_of(entries, (n - 1) as nat).insert(lower(entries[n - 1].0@), entries[n - 1].1)
    }
}

/// Lowering a text twice is lowering it once.
pub proof fn lemma_lower_idempotent(s: Seq<char>)
    ensures
        lower(lower(s)) == lower(s),
{
    assert(lower(lower(s)) =~= lower(s));
}

impl View for ColorMap {
    type V = Map<Seq<char>, Color>;

    closed spec fn view(&self) -> Map<Seq<char>, Color> {
        map_of(self.entries@, self.entries@.len())
    }
}

impl ColorMap {
    #[verifier::type_invariant]
    spec fn keys_are_lowered(self) -> bool {
        forall|i: int|
            0 <= i < self.entries@.len() ==> lower((#[trigger] self.entries@[i]).0@)
                == self.entries@[i].0@
    }

    /// A map without colours.
    pub fn new() -> (r: ColorMap)
        ensures
            r@ == Map::<Seq<char>, Color>::empty(),
    {
        ColorMap { entries: Vec::new() }
    }

    /// A map without colours, with room for `capacity` of them.
    pub fn with_capacity(capacity: usize) -> (r: ColorMap)
        ensures
            r@ == Map::<Seq<char>, Color>::empty(),
    {
        ColorMap { entries: Vec::with_capacity(capacity) }
    }

    /// Gives `name`, in lower case, the colour `color`.
    pub fn insert(&mut self, name: &str, color: Color)
        ensures
            final(self)@ == old(self)@.insert(lower(name@), color),
    {
        proof {
            use_type_invariant(&*self);
            lemma_lower_idempotent(name@);
        }
        let ghost before = self.entries@;
        let key = to_lower(name);
        let mut held = ColorMap { entries: Vec::new() };
        std::mem::swap(self, &mut held);
        let mut entries = held.entries;
        entries.push((key, color));
        proof {
            lemma_map_of_agrees(before, entries@, before.len());
        }
        *self = ColorMap { entries };
    }

    /// The map of a list of names with their colours: each name in lower case, a later entry
    /// replacing an earlier one of its name.
    pub fn from_entries(entries: &Vec<(String, Color)>) -> (r: ColorMap)
        ensures
            r@ == lowered_map_of(entries@, entries@.len()),
    {
        let mut out = ColorMap::with_capacity(entries.len());
        let mut i: usize = 0;
        while i < entries.len()
            invariant
                i <= entries.len(),
                out@ == lowered_map_of(entries@, i as nat),
            decreases entries.len() - i,
        {
            out.insert(entries[i].0.as_str(), entries[i].1);
            i += 1;
        }
        out
    }

    /// The colour of `name`, whatever the case of its letters.
    ///
    /// The name is looked up as it stands first, and in lower case if that finds nothing.
    pub fn get(&self, name: &str) -> (r: Option<&Color>)
        ensures
            match r {
                Some(c) => self@.contains_key(lower(name@)) && self@[lower(name@)] == *c,
                None => !self@.contains_key(lower(name@)),
            },
    {
        match find(&self.entries, name) {
            Some(c) => {
                proof {
                    use_type_invariant(self);
                    lemma_map_of_keys(self.entries@, self.entries@.len(), name@);
                }
                Some(c)
            },
            None => {
                let key = to_lower(name);
                find(&self.entries, key.as_str())
            },
        }
    }

    /// Whether `name` has a colour, whatever the case of its letters.
    pub fn contains_key(&self, name: &str) -> (r: bool)
        ensures
            r == self@.contains_key(lower(name@)),
    {
        self.get(name).is_some()
    }
}

impl Default for ColorMap {
    fn default() -> (r: ColorMap)
        ensures
            r@ == Map::<Seq<char>, Color>::empty(),
    {
        ColorMap::new()
    }
}

/// The colour that `name` stands for.
///
/// The name counts in lower case. A colour of the document goes before a built-in one: a
/// document that gives a built-in name a colour of its own has that colour under the name.
pub open spec fn resolved(name: Seq<char>, local: Map<Seq<char>, Color>) -> Result<Color, Fault> {
    let key = lower(name);
    if local.contains_key(key) {
        Ok(local[key])
    } else {
        match builtin(key) {
            Some(color) => Ok(color),
            None => Err(Fault::UnknownAlias(key)),
        }
    }
}

/// A name that the document gives a colour stands for that colour, whatever the built-in
/// colours say of the name.
pub proof fn lemma_document_shadows_builtin(name: Seq<char>, local: Map<Seq<char>, Color>)
    requires
        local.contains_key(lower(name)),
    ensures
        resolved(name, local) == Ok::<Color, Fault>(local[lower(name)]),
{
}

/// Resolves a colour name against the colours of the document and the built-in ones.
pub fn resolve(name: &str, local: &ColorMap) -> (r: Result<Color, Error>)
    ensures
        outcome(r) == resolved(name@, local@),
{
    let key = to_lower(name);
    proof {
        lemma_lower_idempotent(name@);
    }
    match local.get(key.as_str()) {
        Some(color) => Ok(*color),
        None => match builtin_color(key.as_str()) {
            Some(color) => Ok(color),
            None => Err(Error::UnknownAlias(key)),
        },
    }
}

/// The three channels that three nodes write.
///
/// Three numbers are the channels themselves. Three strings are hexadecimal bytes, each a
/// part of 255; the first of them that is no such byte is the fault. Anything else has no
/// shape of a colour.
pub open spec fn channels_of(x: Tree, y: Tree, z: Tree) -> Result<(Scalar, Scalar, Scalar), Fault> {
    match (scalar_of(x), scalar_of(y), scalar_of(z)) {
        (Ok(r), Ok(g), Ok(b)) => Ok((r, g, b)),
        _ => match (x, y, z) {
            (Tree::Text(tx), Tree::Text(ty), Tree::Text(tz)) => match hex_byte(tx) {
                None => Err(Fault::InvalidHex(tx)),
                Some(r) => match hex_byte(ty) {
                    None => Err(Fault::InvalidHex(ty)),
                    Some(g) => match hex_byte(tz) {
                        None => Err(Fault::InvalidHex(tz)),
                        Some(b) => Ok((Scalar::channel(r), Scalar::channel(g), Scalar::channel(b))),
                    },
                },
            },
            _ => Err(Fault::Shape),
        },
    }
}

/// The colour of three channel nodes and, where there is one, an opacity node.
pub open spec fn channel_color_of(x: Tree, y: Tree, z: Tree, alpha: Option<Tree>) -> Result<
    Color,
    Fault,
> {
    match channels_of(x, y, z) {
        Err(e) => Err(e),
        Ok((r, g, b)) => match alpha {
            None => Ok(Color::rgb(r, g, b)),
            Some(t) => match scalar_of(t) {
                Ok(a) => Ok(Color::rgba(r, g, b, a)),
                Err(e) => Err(e),
            },
        },
    }
}

/// The colour that a literal writes.
///
/// The shapes, in the order in which they are tried:
/// - a string: the name of a colour;
/// - an array of three: the channels red, green and blue;
/// - an array of four: the three channels and the opacity, a number;
/// - a table with the key `rgb`: the name of a colour under `rgb` and its opacity under `a`;
/// - any other table: the channels under `r`, `g` and `b`, and the opacity under `a` if
///   there is such a key.
pub open spec fn color_of(t: Tree, local: Map<Seq<char>, Color>) -> Result<Color, Fault> {
    match t {
        Tree::Text(name) => resolved(name, local),
        Tree::List(items) => if items.len() == 3 {
            channel_color_of(items[0], items[1], items[2], None)
        } else if items.len() == 4 {
            channel_color_of(items[0], items[1], items[2], Some(items[3]))
        } else {
            Err(Fault::Shape)
        },
        Tree::Table(_) => match t.field("rgb"@) {
            Some(base) => match (base, t.field("a"@)) {
                (Tree::Text(name), Some(alpha)) => match scalar_of(alpha) {
                    Err(e) => Err(e),
                    Ok(a) => match resolved(name, local) {
                        Ok(c) => Ok(c.with_alpha(a)),
                        Err(e) => Err(e),
                    },
                },
                _ => Err(Fault::Shape),
            },
            None => match (t.field("r"@), t.field("g"@), t.field("b"@)) {
                (Some(x), Some(y), Some(z)) => channel_color_of(x, y, z, t.field("a"@)),
                _ => Err(Fault::Shape),
            },
        },
        _ => Err(Fault::Shape),
    }
}

/// The colour of a field that may be left out.
pub open spec fn opt_color_of(node: Option<Tree>, local: Map<Seq<char>, Color>) -> Result<
    Option<Color>,
    Fault,
> {
    match node {
        None => Ok(None),
        Some(t) => match color_of(t, local) {
            Ok(c) => Ok(Some(c)),
            Err(e) => Err(e),
        },
    }
}

/// The filling of a field that may be left out.
pub open spec fn opt_background_of(node: Option<Tree>, local: Map<Seq<char>, Color>) -> Result<
    Option<Background>,
    Fault,
> {
    match node {
        None => Ok(None),
        Some(t) => match color_of(t, local) {
            Ok(c) => Ok(Some(Background::of(c))),
            Err(e) => Err(e),
        },
    }
}

fn hex_channel(v: &Node) -> (r: Result<Scalar, Error>)
    requires
        v@ is Text,
    ensures
        outcome(r) == match hex_byte(v@->Text_0) {
            Some(byte) => Ok::<Scalar, Fault>(Scalar::channel(byte)),
            None => Err(Fault::InvalidHex(v@->Text_0)),
        },
{
    match v {
        Node::Text(s) => match parse_hex(s.as_str()) {
            Some(byte) => Ok(Scalar::Ratio(byte, 255)),
            None => Err(Error::InvalidHex(s.clone())),
        },
        _ => Err(Error::Shape),
    }
}

fn channels(x: &Node, y: &Node, z: &Node) -> (r: Result<(Scalar, Scalar, Scalar), Error>)
    ensures
        outcome(r) == channels_of(x@, y@, z@),
{
    match (scalar(x), scalar(y), scalar(z)) {
        (Ok(r), Ok(g), Ok(b)) => Ok((r, g, b)),
        _ => match (x, y, z) {
            (Node::Text(_), Node::Text(_), Node::Text(_)) => {
                let r = hex_channel(x)?;
                let g = hex_channel(y)?;
                let b = hex_channel(z)?;
                Ok((r, g, b))
            },
            _ => Err(Error::Shape),
        },
    }
}

fn channel_color(x: &Node, y: &Node, z: &Node, alpha: Option<&Node>) -> (r: Result<Color, Error>)
    ensures
        outcome(r) == channel_color_of(
            x@,
            y@,
            z@,
            match alpha {
                Some(t) => Some(t@),
                None => None,
            },
        ),
{
    let (r, g, b) = channels(x, y, z)?;
    match alpha {
        None => Ok(Color::from_rgb(r, g, b)),
        Some(t) => {
            let a = scalar(t)?;
            Ok(Color::from_rgba(r, g, b, a))
        },
    }
}

/// Reads a colour literal.
pub fn decode_color(v: &Node, local: &ColorMap) -> (r: Result<Color, Error>)
    ensures
        outcome(r) == color_of(v@, local@),
{
    match v {
        Node::Text(name) => resolve(name.as_str(), local),
        Node::List(items) => {
            if items.len() == 3 {
                channel_color(&items[0], &items[1], &items[2], None)
            } else if items.len() == 4 {
                channel_color(&items[0], &items[1], &items[2], Some(&items[3]))
            } else {
                Err(Error::Shape)
            }
        },
        Node::Table(_) => match v.get("rgb") {
            Some(base) => match (base, v.get("a")) {
                (Node::Text(name), Some(alpha)) => {
                    let a = scalar(alpha)?;
                    let c = resolve(name.as_str(), local)?;
                    Ok(Color { r: c.r, g: c.g, b: c.b, a, halvings: 0 })
                },
                _ => Err(Error::Shape),
            },
            None => match (v.get("r"), v.get("g"), v.get("b")) {
                (Some(x), Some(y), Some(z)) => channel_color(x, y, z, v.get("a")),
                _ => Err(Error::Shape),
            },
        },
        _ => Err(Error::Shape),
    }
}

/// Reads the colour under `key`, if the key is there.
pub fn opt_color(v: &Node, key: &str, local: &ColorMap) -> (r: Result<Option<Color>, Error>)
    ensures
        outcome(r) == opt_color_of(v@.field(key@), local@),
{
    match v.get(key) {
        None => Ok(None),
        Some(t) => match decode_color(t, local) {
            Ok(c) => Ok(Some(c)),
            Err(e) => Err(e),
        },
    }
}

/// Reads the filling under `key`, if the key is there.
pub fn opt_background(v: &Node, key: &str, local: &ColorMap) -> (r: Result<
    Option<Background>,
    Error,
>)
    ensures
        outcome(r) == opt_background_of(v@.field(key@), local@),
{
    match v.get(key) {
        None => Ok(None),
        Some(t) => match decode_color(t, local) {
            Ok(c) => Ok(Some(Background { color: c })),
            Err(e) => Err(e),
        },
    }
}

/// A name stands for the same colour in any case of its letters.
pub proof fn lemma_case_of_name_is_free(a: Seq<char>, b: Seq<char>, local: Map<Seq<char>, Color>)
    requires
        lower(a) == lower(b),
    ensures
        resolved(a, local) == resolved(b, local),
        color_of(Tree::Text(a), local) == color_of(Tree::Text(b), local),
{
}

/// Three hexadecimal bytes write the opaque colour whose channels are these bytes, each
/// divided by 255.
pub proof fn lemma_hex_bytes_write_their_color(
    r: Seq<char>,
    g: Seq<char>,
    b: Seq<char>,
    local: Map<Seq<char>, Color>,
)
    requires
        hex_byte(r) is Some,
        hex_byte(g) is Some,
        hex_byte(b) is Some,
    ensures
        color_of(Tree::List(seq![Tree::Text(r), Tree::Text(g), Tree::Text(b)]), local) == Ok::<
            Color,
            Fault,
        >(Color::rgb8(hex_byte(r)->Some_0, hex_byte(g)->Some_0, hex_byte(b)->Some_0)),
        color_of(
            Tree::List(seq![Tree::Text(r), Tree::Text(g), Tree::Text(b)]),
            local,
        )->Ok_0.r.value() == Some((hex_byte(r)->Some_0 as int as real) / 255real),
        color_of(
            Tree::List(seq![Tree::Text(r), Tree::Text(g), Tree::Text(b)]),
            local,
        )->Ok_0.g.value() == Some((hex_byte(g)->Some_0 as int as real) / 255real),
        color_of(
            Tree::List(seq![Tree::Text(r), Tree::Text(g), Tree::Text(b)]),
            local,
        )->Ok_0.b.value() == Some((hex_byte(b)->Some_0 as int as real) / 255real),
        color_of(
            Tree::List(seq![Tree::Text(r), Tree::Text(g), Tree::Text(b)]),
            local,
        )->Ok_0.opacity() == Some(1real),
{
}

/// Three hexadecimal bytes and a number write the colour of these bytes at the opacity of
/// the number.
pub proof fn lemma_hex_bytes_take_their_alpha(
    r: Seq<char>,
    g: Seq<char>,
    b: Seq<char>,
    alpha: Tree,
    local: Map<Seq<char>, Color>,
)
    requires
        hex_byte(r) is Some,
        hex_byte(g) is Some,
        hex_byte(b) is Some,
        scalar_of(alpha) is Ok,
    ensures
        color_of(
            Tree::List(seq![Tree::Text(r), Tree::Text(g), Tree::Text(b), alpha]),
            local,
        ) == Ok::<Color, Fault>(
            Color::rgba8(
                hex_byte(r)->Some_0,
                hex_byte(g)->Some_0,
                hex_byte(b)->Some_0,
                scalar_of(alpha)->Ok_0,
            ),
        ),
        color_of(
            Tree::List(seq![Tree::Text(r), Tree::Text(g), Tree::Text(b), alpha]),
            local,
        )->Ok_0.opacity() == scalar_of(alpha)->Ok_0.value(),
{
}

/// A hexadecimal byte without its `0x` is a fault that names the text.
pub proof fn lemma_bare_hex_is_a_fault(
    r: Seq<char>,
    g: Seq<char>,
    b: Seq<char>,
    local: Map<Seq<char>, Color>,
)
    requires
        hex_byte(r) is None,
    ensures
        color_of(Tree::List(seq![Tree::Text(r), Tree::Text(g), Tree::Text(b)]), local) == Err::<
            Color,
            Fault,
        >(Fault::InvalidHex(r)),
{
}

/// Whether every colour of the map is as a document writes it: not halved.
pub open spec fn plain_map(local: Map<Seq<char>, Color>) -> bool {
    forall|name: Seq<char>| local.contains_key(name) ==> (#[trigger] local[name]).halvings == 0
}

/// No built-in colour is halved.
pub proof fn lemma_builtin_is_plain(name: Seq<char>)
    ensures
        builtin(name) matches Some(color) ==> color.halvings == 0,
{
}

/// A colour that a literal writes is not halved, where no colour that the document names is:
/// its opacity is what its `a` stands for.
pub proof fn lemma_color_of_is_plain(t: Tree, local: Map<Seq<char>, Color>)
    requires
        plain_map(local),
        color_of(t, local) is Ok,
    ensures
        color_of(t, local)->Ok_0.halvings == 0,
        color_of(t, local)->Ok_0.opacity() == color_of(t, local)->Ok_0.a.value(),
{
    match t {
        Tree::Text(name) => {
            lemma_builtin_is_plain(lower(name));
        },
        Tree::Table(_) => {
            match t.field("rgb"@) {
                Some(Tree::Text(name)) => {
                    lemma_builtin_is_plain(lower(name));
                },
                _ => {},
            }
        },
        _ => {},
    }
}

/// A literal that writes no colour is at fault for what it holds.
pub proof fn lemma_color_fault_is_of_document(t: Tree, local: Map<Seq<char>, Color>)
    ensures
        color_of(t, local) matches Err(e) ==> e.of_document(),
        opt_color_of(Some(t), local) matches Err(e) ==> e.of_document(),
        opt_background_of(Some(t), local) matches Err(e) ==> e.of_document(),
{
}

} // verus!
