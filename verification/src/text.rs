//! Content values: a text segment together with the style it is rendered
//! with. A segment is immutable once produced; widgets hand full segment
//! lists to the bar, never diffs.

use vstd::prelude::*;

use crate::digits::hex_byte_seq;
use crate::digits::hex_byte_string;

verus! {

/// An RGB colour, one byte per channel.
#[derive(Clone, Copy, PartialEq, Eq, Structural, Debug)]
pub struct Color {
    pub red: u8,
    pub green: u8,
    pub blue: u8,
}

/// `#rrggbb`, lower case: the notation the markup helpers embed colours with.
pub open spec fn color_hex(c: Color) -> Seq<char> {
    seq!['#'] + hex_byte_seq(c.red as nat) + hex_byte_seq(c.green as nat) + hex_byte_seq(
        c.blue as nat,
    )
}

impl Color {
    pub fn new(red: u8, green: u8, blue: u8) -> (c: Color)
        ensures
            c == (Color { red, green, blue }),
    {
        Color { red, green, blue }
    }

    pub fn white() -> (c: Color)
        ensures
            c == (Color { red: 255u8, green: 255u8, blue: 255u8 }),
    {
        Color { red: 255, green: 255, blue: 255 }
    }

    pub fn black() -> (c: Color)
        ensures
            c == (Color { red: 0u8, green: 0u8, blue: 0u8 }),
    {
        Color { red: 0, green: 0, blue: 0 }
    }

    pub fn red() -> (c: Color)
        ensures
            c == (Color { red: 255u8, green: 0u8, blue: 0u8 }),
    {
        Color { red: 255, green: 0, blue: 0 }
    }

    pub fn green() -> (c: Color)
        ensures
            c == (Color { red: 0u8, green: 255u8, blue: 0u8 }),
    {
        Color { red: 0, green: 255, blue: 0 }
    }

    pub fn blue() -> (c: Color)
        ensures
            c == (Color { red: 0u8, green: 0u8, blue: 255u8 }),
    {
        Color { red: 0, green: 0, blue: 255 }
    }

    pub fn yellow() -> (c: Color)
        ensures
            c == (Color { red: 255u8, green: 255u8, blue: 0u8 }),
    {
        Color { red: 255, green: 255, blue: 0 }
    }

    /// The colour written as `#rrggbb`.
    pub fn to_hex(&self) -> (s: String)
        ensures
            s@ =~= color_hex(*self),
    {
        proof {
            reveal_strlit("#");
        }
        let mut s = "#".to_owned();
        let r = hex_byte_string(self.red);
        let g = hex_byte_string(self.green);
        let b = hex_byte_string(self.blue);
        s.append(r.as_str());
        s.append(g.as_str());
        s.append(b.as_str());
        s
    }
}

/// Blank space around a rendered segment, in surface units.
#[derive(Clone, Copy, PartialEq, Eq, Structural, Debug)]
pub struct Padding {
    pub left: u32,
    pub right: u32,
    pub top: u32,
    pub bottom: u32,
}

impl Padding {
    pub fn new(left: u32, right: u32, top: u32, bottom: u32) -> (p: Padding)
        ensures
            p == (Padding { left, right, top, bottom }),
    {
        Padding { left, right, top, bottom }
    }
}

/// A font descriptor, as the rendering layer understands it.
#[derive(Debug)]
pub struct Font(pub String);

impl View for Font {
    type V = Seq<char>;

    open spec fn view(&self) -> Seq<char> {
        self.0@
    }
}

impl Font {
    pub fn new(name: &str) -> (f: Font)
        ensures
            f@ =~= name@,
    {
        Font(name.to_owned())
    }
}

impl Clone for Font {
    fn clone(&self) -> (r: Self)
        ensures
            r@ == self@,
    {
        Font(self.0.clone())
    }
}

/// The style of one segment: font, colours and padding.
#[derive(Debug)]
pub struct Attributes {
    pub font: Font,
    pub fg_color: Color,
    pub bg_color: Option<Color>,
    pub padding: Padding,
}

/// The mathematical value of an [`Attributes`].
pub ghost struct AttrView {
    pub font: Seq<char>,
    pub fg_color: Color,
    pub bg_color: Option<Color>,
    pub padding: Padding,
}

impl View for Attributes {
    type V = AttrView;

    open spec fn view(&self) -> AttrView {
        AttrView {
            font: self.font@,
            fg_color: self.fg_color,
            bg_color: self.bg_color,
            padding: self.padding,
        }
    }
}

impl Clone for Attributes {
    fn clone(&self) -> (r: Self)
        ensures
            r@ == self@,
    {
        Attributes {
            font: self.font.clone(),
            fg_color: self.fg_color,
            bg_color: self.bg_color,
            padding: self.padding,
        }
    }
}

/// One piece of rendered content: the text and its style.
#[derive(Debug)]
pub struct Text {
    pub attr: Attributes,
    pub text: String,
    pub stretch: bool,
    pub markup: bool,
}

/// The mathematical value of a [`Text`].
pub ghost struct TextView {
    pub attr: AttrView,
    pub text: Seq<char>,
    pub stretch: bool,
    pub markup: bool,
}

impl View for Text {
    type V = TextView;

    open spec fn view(&self) -> TextView {
        TextView { attr: self.attr@, text: self.text@, stretch: self.stretch, markup: self.markup }
    }
}

impl DeepView for Text {
    type V = TextView;

    open spec fn deep_view(&self) -> TextView {
        self@
    }
}

impl Clone for Text {
    fn clone(&self) -> (r: Self)
        ensures
            r@ == self@,
    {
        Text {
            attr: self.attr.clone(),
            text: self.text.clone(),
            stretch: self.stretch,
            markup: self.markup,
        }
    }
}

/// Unicode whitespace, as standard trimming understands it: exactly the
/// characters with the `White_Space` property.
pub open spec fn is_space(c: char) -> bool {
    let u = c as u32;
    (9 <= u && u <= 13) || u == 32 || u == 0x85 || u == 0xA0 || u == 0x1680 || (0x2000 <= u && u
        <= 0x200A) || u == 0x2028 || u == 0x2029 || u == 0x202F || u == 0x205F || u == 0x3000
}

/// `s` with leading whitespace removed.
pub open spec fn trim_front(s: Seq<char>) -> Seq<char>
    decreases s.len(),
{
    if s.len() > 0 && is_space(s[0]) {
        trim_front(s.skip(1))
    } else {
        s
    }
}

/// `s` with trailing whitespace removed.
pub open spec fn trim_back(s: Seq<char>) -> Seq<char>
    decreases s.len(),
{
    if s.len() > 0 && is_space(s.last()) {
        trim_back(s.drop_last())
    } else {
        s
    }
}

/// `s` with leading and trailing whitespace removed.
pub open spec fn trimmed(s: Seq<char>) -> Seq<char> {
    trim_back(trim_front(s))
}

fn is_space_char(c: char) -> (b: bool)
    ensures
        b == is_space(c),
{
    let u = c as u32;
    (9 <= u && u <= 13) || u == 32 || u == 0x85 || u == 0xA0 || u == 0x1680 || (0x2000 <= u && u
        <= 0x200A) || u == 0x2028 || u == 0x2029 || u == 0x202F || u == 0x205F || u == 0x3000
}

/// The string with surrounding whitespace removed.
pub fn trim(s: &str) -> (r: &str)
    ensures
        r@ == trimmed(s@),
{
    let n = s.unicode_len();
    let mut a: usize = 0;
    proof {
        assert(s@.skip(0) =~= s@);
    }
    loop
        invariant
            n == s@.len(),
            0 <= a <= n,
            trim_front(s@) == trim_front(s@.skip(a as int)),
        ensures
            0 <= a <= n,
            trim_front(s@) == trim_front(s@.skip(a as int)),
            a < n ==> !is_space(s@[a as int]),
        decreases n - a,
    {
        if a < n && is_space_char(s.get_char(a)) {
            proof {
                assert(s@.skip(a as int)[0] == s@[a as int]);
                assert(s@.skip(a as int).skip(1) =~= s@.skip(a as int + 1));
            }
            a += 1;
        } else {
            break;
        }
    }
    let mut b: usize = n;
    proof {
        assert(s@.skip(a as int) =~= s@.subrange(a as int, n as int));
    }
    loop
        invariant
            n == s@.len(),
            0 <= a <= b <= n,
            a < n ==> !is_space(s@[a as int]),
            trim_back(s@.skip(a as int)) == trim_back(s@.subrange(a as int, b as int)),
        ensures
            0 <= a <= b <= n,
            trim_back(s@.skip(a as int)) == trim_back(s@.subrange(a as int, b as int)),
            b > a ==> !is_space(s@[b - 1]),
        decreases b,
    {
        if b > a && is_space_char(s.get_char(b - 1)) {
            proof {
                assert(s@.subrange(a as int, b as int).last() == s@[b - 1]);
                assert(s@.subrange(a as int, b as int).drop_last() =~= s@.subrange(
                    a as int,
                    b as int - 1,
                ));
            }
            b -= 1;
        } else {
            break;
        }
    }
    proof {
        assert(s@.skip(a as int) =~= s@.subrange(a as int, n as int));
        if a < n {
            assert(trim_front(s@.skip(a as int)) == s@.skip(a as int));
        }
        if b > a {
            assert(s@.subrange(a as int, b as int).last() == s@[b - 1]);
            assert(trim_back(s@.subrange(a as int, b as int)) == s@.subrange(a as int, b as int));
        } else {
            assert(s@.subrange(a as int, b as int) =~= Seq::<char>::empty());
        }
    }
    s.substring_char(a, b)
}

/// Whether two strings hold the same characters.
pub fn str_eq(a: &str, b: &str) -> (r: bool)
    ensures
        r == (a@ == b@),
{
    let sa = a.to_owned();
    let sb = b.to_owned();
    sa == sb
}

/// The markup that [`pango_markup_render`] produces: a grey bracket pair
/// around `start`, one space, then `text` in the given colour.
pub open spec fn markup_pair(hex: Seq<char>, start: Seq<char>, text: Seq<char>) -> Seq<char> {
    "<span foreground=\"#808080\">[</span>"@ + start + " <span foreground=\""@ + hex + "\">"@
        + text + "</span><span foreground=\"#808080\">]</span>"@
}

/// The markup that [`pango_markup_single_render`] produces: a grey bracket
/// pair around `start` alone, with an empty coloured span after it.
pub open spec fn markup_single(hex: Seq<char>, start: Seq<char>) -> Seq<char> {
    "<span foreground=\"#808080\">[</span>"@ + start + "<span foreground=\""@ + hex
        + "\"></span><span foreground=\"#808080\">]</span>"@
}

/// Wraps `start_text` and `text` in bracketed markup, colouring `text`.
pub fn pango_markup_render(color: Color, start_text: String, text: String) -> (r: String)
    ensures
        r@ =~= markup_pair(color_hex(color), start_text@, text@),
{
    let mut s = "<span foreground=\"#808080\">[</span>".to_owned();
    s.append(start_text.as_str());
    s.append(" <span foreground=\"");
    let hex = color.to_hex();
    s.append(hex.as_str());
    s.append("\">");
    s.append(text.as_str());
    s.append("</span><span foreground=\"#808080\">]</span>");
    s
}

/// Wraps `start_text` alone in bracketed markup.
pub fn pango_markup_single_render(color: Color, start_text: String) -> (r: String)
    ensures
        r@ =~= markup_single(color_hex(color), start_text@),
{
    let mut s = "<span foreground=\"#808080\">[</span>".to_owned();
    s.append(start_text.as_str());
    s.append("<span foreground=\"");
    let hex = color.to_hex();
    s.append(hex.as_str());
    s.append("\"></span><span foreground=\"#808080\">]</span>");
    s
}

} // verus!
