//! RGBA colors packed into a `u32` as `0xRRGGBBAA`, and their `#rrggbb`
//! string forms.

use vstd::prelude::*;

verus! {

/// A color packed as `0xRRGGBBAA`.
#[derive(Clone, Copy, PartialEq, Eq, Structural, PartialOrd, Ord, Hash, Debug)]
pub struct Color(pub u32);

/// Errors of [`Color::from_hex`].
#[derive(Debug, Clone, PartialEq, Eq)]
pub enum ColorParseError {
    /// The string does not begin with `#`.
    MissingHash,
    /// The number of characters read, counting the `#`, is not 4, 5, 7 or 9.
    BadLength(usize),
    /// A character that is not a hexadecimal digit.
    InvalidCharacter(char),
    /// The string is not ASCII.
    NotAscii,
}

/// The value packed from four channel bytes.
pub open spec fn rgba_value(r: int, g: int, b: int, a: int) -> int {
    r * 0x1000000 + g * 0x10000 + b * 0x100 + a
}

/// The `i`-th byte of `s`, or zero past its end.
pub open spec fn byte_or_zero(s: Seq<u8>, i: int) -> int {
    if i < s.len() {
        s[i] as int
    } else {
        0
    }
}

/// The color packed from at most four bytes in the order red, green, blue,
/// alpha. Missing channels are zero and a missing alpha is opaque; a single
/// byte is a gray, copied into red, green and blue.
pub open spec fn spec_from_slice(s: Seq<u8>) -> int {
    let r = byte_or_zero(s, 0);
    let g = byte_or_zero(s, 1);
    let b = byte_or_zero(s, 2);
    let a = if s.len() >= 4 {
        s[3] as int
    } else {
        0xff
    };
    if s.len() == 1 {
        rgba_value(r, r, r, a)
    } else {
        rgba_value(r, g, b, a)
    }
}

/// The four bytes of `v`, most significant first.
pub open spec fn be_bytes(v: u32) -> Seq<u8> {
    seq![
        (v / 0x1000000) as u8,
        (v / 0x10000 % 0x100) as u8,
        (v / 0x100 % 0x100) as u8,
        (v % 0x100) as u8,
    ]
}

/// `c` with `A`..`Z` mapped to `a`..`z`.
pub open spec fn ascii_lower(c: char) -> char {
    if 'A' <= c && c <= 'Z' {
        ((c as u32) + 32) as char
    } else {
        c
    }
}

/// The value of a hexadecimal digit, `0`-`9`, `a`-`f` or `A`-`F`; `None`
/// for any other character.
pub open spec fn hex_digit(c: char) -> Option<int> {
    let x = (ascii_lower(c) as u32) as int;
    if 48 <= x && x <= 57 {
        Some(x - 48)
    } else if 97 <= x && x <= 102 {
        Some(x - 87)
    } else {
        None
    }
}

/// The digit at `i`, as an integer.
pub open spec fn digit_at(d: Seq<char>, i: int) -> int {
    hex_digit(d[i])->0
}

/// Every character of `d` is a hexadecimal digit.
pub open spec fn all_hex(d: Seq<char>) -> bool {
    forall|i: int| 0 <= i < d.len() ==> #[trigger] hex_digit(d[i]) is Some
}

/// `i` is the first character of `d` that is not a hexadecimal digit.
pub open spec fn is_first_bad_digit(d: Seq<char>, i: int) -> bool {
    &&& 0 <= i < d.len()
    &&& hex_digit(d[i]) is None
    &&& forall|j: int| 0 <= j < i ==> #[trigger] hex_digit(d[j]) is Some
}

/// The characters after the `#`.
pub open spec fn digits_of(s: Seq<char>) -> Seq<char> {
    s.subrange(1, s.len() as int)
}

/// The bytes described by the digits `d`: each digit doubled for the short
/// forms, pairs of digits for the long forms.
pub open spec fn channel_bytes(d: Seq<char>) -> Seq<u8> {
    if d.len() == 3 || d.len() == 4 {
        Seq::new(d.len(), |k: int| (digit_at(d, k) * 17) as u8)
    } else {
        Seq::new(d.len() / 2, |k: int| (digit_at(d, 2 * k) * 16 + digit_at(d, 2 * k + 1)) as u8)
    }
}

/// What parsing `s` gives.
pub open spec fn spec_parse(s: Seq<char>) -> Result<Color, ColorParseError> {
    if s.len() == 0 || s[0] != '#' {
        Err(ColorParseError::MissingHash)
    } else {
        let d = digits_of(s);
        if !all_hex(d) {
            Err(
                ColorParseError::InvalidCharacter(
                    ascii_lower(d[choose|i: int| is_first_bad_digit(d, i)]),
                ),
            )
        } else if d.len() == 3 || d.len() == 4 || d.len() == 6 || d.len() == 8 {
            Ok(Color(spec_from_slice(channel_bytes(d)) as u32))
        } else {
            Err(ColorParseError::BadLength((d.len() + 1) as usize))
        }
    }
}

/// Bytes packed with shifts and ors are the bytes packed with arithmetic.
proof fn lemma_pack(r: u32, g: u32, b: u32, a: u32)
    by (bit_vector)
    requires
        r < 256,
        g < 256,
        b < 256,
        a < 256,
    ensures
        (r << 24u32) | (g << 16u32) | (b << 8u32) | a == r * 0x1000000 + g * 0x10000 + b * 0x100 + a,
        (((r << 24u32) | (g << 16u32) | (b << 8u32) | a) >> 24u32) == r,
        (((r << 24u32) | a) | (r << 16u32)) | (r << 8u32) == r * 0x1000000 + r * 0x10000 + r * 0x100
            + a,
{
}

proof fn lemma_rgb_shift(rgb: u32)
    by (bit_vector)
    ensures
        (rgb << 8u32) | 0xffu32 == (rgb % 0x1000000) * 0x100 + 0xff,
{
}

proof fn lemma_splat(x: u32)
    by (bit_vector)
    requires
        x < 256,
    ensures
        x << 24u32 | x << 16u32 | x << 8u32 | 0xffu32 == x * 0x1000000 + x * 0x10000 + x * 0x100
            + 0xff,
{
}

/// Trusted: `bytemuck::cast::<u32, [u8; 4]>`, which reinterprets the four
/// bytes of `v` in the machine's byte order; on any machine that order is
/// either most or least significant byte first. Which of the two is not
/// stated.
#[verifier::external_body]
fn u32_to_native_bytes(v: u32) -> (r: [u8; 4])
    ensures
        r@ == be_bytes(v) || r@ == be_bytes(v).reverse(),
{
    bytemuck::cast(v)
}

impl Color {
    pub fn from_rgba(rgba: u32) -> (c: Self)
        ensures
            c.0 == rgba,
    {
        Color(rgba)
    }

    /// An opaque color from `0xRRGGBB`; bits above the low 24 are dropped.
    pub fn from_rgb(rgb: u32) -> (c: Self)
        ensures
            c.0 == (rgb % 0x1000000) * 0x100 + 0xff,
    {
        proof {
            lemma_rgb_shift(rgb);
        }
        Color((rgb << 8) | 0xFF)
    }

    /// Consumes at most 4 items, in order rgba.
    pub fn from_slice(bytes: &[u8]) -> (c: Self)
        ensures
            c.0 == spec_from_slice(bytes@),
    {
        let len = bytes.len();
        let r: u32 = if len > 0 {
            bytes[0] as u32
        } else {
            0
        };
        let g: u32 = if len > 1 {
            bytes[1] as u32
        } else {
            0
        };
        let b: u32 = if len > 2 {
            bytes[2] as u32
        } else {
            0
        };
        let a: u32 = if len > 3 {
            bytes[3] as u32
        } else {
            0xFF
        };
        proof {
            lemma_pack(r, g, b, a);
        }
        let mut res: u32 = (r << 24) | (g << 16) | (b << 8) | a;
        // only 1 item has been submitted, splat it
        if len == 1 {
            let byte = res >> 24;
            assert(res == (r << 24u32) | a) by (bit_vector)
                requires
                    res == (r << 24u32) | (g << 16u32) | (b << 8u32) | a,
                    g == 0,
                    b == 0,
            ;
            res = res | (byte << 16);
            res = res | (byte << 8);
        }
        Color(res)
    }

    pub fn splat_rgb(byte: u8) -> (c: Self)
        ensures
            c.0 == byte * 0x1000000 + byte * 0x10000 + byte * 0x100 + 0xff,
    {
        let byte = byte as u32;
        proof {
            lemma_splat(byte);
        }
        Color(byte << 24 | byte << 16 | byte << 8 | 0xFF)
    }

    /// The channel bytes in the machine's byte order.
    pub fn as_rgba(&self) -> (r: [u8; 4])
        ensures
            r@ == be_bytes(self.0) || r@ == be_bytes(self.0).reverse(),
    {
        u32_to_native_bytes(self.0)
    }

    /// The first three bytes of [`Color::as_rgba`].
    pub fn as_rgb(&self) -> (r: [u8; 3])
        ensures
            r@ == be_bytes(self.0).subrange(0, 3) || r@ == be_bytes(self.0).reverse().subrange(0, 3),
    {
        let a = self.as_rgba();
        let r = [a[0], a[1], a[2]];
        assert(r@ =~= a@.subrange(0, 3));
        r
    }
}

/// `c` with `A`..`Z` mapped to `a`..`z`.
fn ascii_lowercase(c: char) -> (r: char)
    ensures
        r == ascii_lower(c),
{
    if 'A' <= c && c <= 'Z' {
        let code = c as u32;
        ((code + 32) as u8) as char
    } else {
        c
    }
}

/// The bytes formed by `l` pairs of digits.
pub open spec fn paired_bytes(buffer: Seq<u8>, l: int) -> Seq<u8> {
    Seq::new(l as nat, |k: int| (buffer[2 * k] * 16 + buffer[2 * k + 1]) as u8)
}

/// Packs `l` bytes, each made from a pair of digits of `buffer`.
fn collapse_color(buffer: &Vec<u8>, l: usize) -> (c: Color)
    requires
        l <= 4,
        2 * l <= buffer.len(),
        forall|i: int| 0 <= i < 2 * l ==> buffer[i] < 16,
    ensures
        c.0 == spec_from_slice(paired_bytes(buffer@, l as int)),
{
    let mut bytes: Vec<u8> = Vec::new();
    let mut k: usize = 0;
    while k < l
        invariant
            k <= l,
            l <= 4,
            2 * l <= buffer.len(),
            forall|i: int| 0 <= i < 2 * l ==> buffer[i] < 16,
            bytes@ =~= paired_bytes(buffer@, k as int),
        decreases l - k,
    {
        let hi = buffer[2 * k];
        let lo = buffer[2 * k + 1];
        bytes.push(hi * 16 + lo);
        k += 1;
    }
    Color::from_slice(bytes.as_slice())
}

/// The uniqueness of the first bad digit.
proof fn lemma_first_bad_digit_unique(d: Seq<char>, i: int)
    requires
        is_first_bad_digit(d, i),
    ensures
        (choose|k: int| is_first_bad_digit(d, k)) == i,
{
    let k = choose|k: int| is_first_bad_digit(d, k);
    assert(is_first_bad_digit(d, k));
    if k < i {
        assert(hex_digit(d[k]) is Some);
    } else if i < k {
        assert(hex_digit(d[i]) is Some);
    }
}

impl Color {
    /// Parses `#rgb`, `#rgba`, `#rrggbb` or `#rrggbbaa` (hexadecimal digits
    /// in either case). Every character after the `#` must be a digit, and
    /// there must be 3, 4, 6 or 8 of them.
    pub fn from_hex(s: &str) -> (r: Result<Color, ColorParseError>)
        ensures
            r == spec_parse(s@),
    {
        let n = s.unicode_len();
        if n == 0 || s.get_char(0) != '#' {
            return Err(ColorParseError::MissingHash);
        }
        let end: usize = n;
        let ghost d = digits_of(s@);
        assert(d.len() == end - 1);
        let mut buffer: Vec<u8> = Vec::new();
        let mut i: usize = 1;
        while i < end
            invariant
                1 <= i <= end,
                end <= n,
                n == s@.len(),
                s@[0] == '#',
                d == digits_of(s@),
                d.len() == end - 1,
                buffer.len() == i - 1,
                forall|k: int| 0 <= k < i - 1 ==> d[k] == s@[k + 1],
                forall|k: int| 0 <= k < i - 1 ==> #[trigger] hex_digit(d[k]) is Some,
                forall|k: int| 0 <= k < i - 1 ==> buffer[k] == digit_at(d, k),
                forall|k: int| 0 <= k < i - 1 ==> buffer[k] < 16,
            decreases end - i,
        {
            let c = ascii_lowercase(s.get_char(i));
            assert(d[i - 1] == s@[i as int]);
            let x: u32 = c as u32;
            assert(x == (ascii_lower(d[i - 1]) as u32) as int);
            let v: u8 = if 48u32 <= x && x <= 57u32 {
                (x - 48u32) as u8
            } else if 97u32 <= x && x <= 102u32 {
                (x - 87u32) as u8
            } else {
                proof {
                    assert(hex_digit(d[i - 1]) is None);
                    assert(is_first_bad_digit(d, i - 1));
                    assert(!all_hex(d));
                    lemma_first_bad_digit_unique(d, i - 1);
                }
                return Err(ColorParseError::InvalidCharacter(c));
            };
            buffer.push(v);
            i += 1;
        }
        assert(all_hex(d));
        let l = buffer.len();
        assert(l == d.len());
        if l == 3 || l == 4 {
            let mut pairs: Vec<u8> = Vec::new();
            let mut k: usize = 0;
            while k < l
                invariant
                    k <= l,
                    l == buffer.len(),
                    l <= 4,
                    forall|j: int| 0 <= j < l ==> buffer[j] < 16,
                    pairs.len() == 2 * k,
                    forall|j: int| 0 <= j < 2 * k ==> pairs[j] == buffer[j / 2],
                decreases l - k,
            {
                pairs.push(buffer[k]);
                pairs.push(buffer[k]);
                k += 1;
            }
            let c = collapse_color(&pairs, l);
            assert(paired_bytes(pairs@, l as int) =~= channel_bytes(d));
            Ok(c)
        } else if l == 6 {
            let c = collapse_color(&buffer, 3);
            assert(paired_bytes(buffer@, 3) =~= channel_bytes(d));
            Ok(c)
        } else if l == 8 {
            let c = collapse_color(&buffer, 4);
            assert(paired_bytes(buffer@, 4) =~= channel_bytes(d));
            Ok(c)
        } else {
            Err(ColorParseError::BadLength(l + 1))
        }
    }
}

impl std::str::FromStr for Color {
    type Err = ColorParseError;

    fn from_str(s: &str) -> (r: Result<Self, Self::Err>)
        ensures
            r == spec_parse(s@),
    {
        Color::from_hex(s)
    }
}

impl Color {
    pub fn black() -> (c: Color)
        ensures
            c.0 == 0x000000FF,
    {
        Color(0x000000FF)
    }

    pub fn red() -> (c: Color)
        ensures
            c.0 == 0xFF0000FF,
    {
        Color(0xFF0000FF)
    }

    pub fn yellow() -> (c: Color)
        ensures
            c.0 == 0xFFFF00FF,
    {
        Color(0xFFFF00FF)
    }

    pub fn green() -> (c: Color)
        ensures
            c.0 == 0x00FF00FF,
    {
        Color(0x00FF00FF)
    }

    pub fn blue() -> (c: Color)
        ensures
            c.0 == 0x0000FFFF,
    {
        Color(0x0000FFFF)
    }

    pub fn white() -> (c: Color)
        ensures
            c.0 == 0xFFFFFFFF,
    {
        Color(0xFFFFFFFF)
    }

    pub fn transparent() -> (c: Color)
        ensures
            c.0 == 0,
    {
        Color(0)
    }
}

impl Default for Color {
    /// Opaque black.
    fn default() -> (c: Self)
        ensures
            c.0 == 0xff,
    {
        Color::from_rgb(0)
    }
}

impl From<u32> for Color {
    fn from(value: u32) -> (c: Self) {
        Color::from_rgba(value)
    }
}

impl vstd::std_specs::convert::FromSpecImpl<u32> for Color {
    open spec fn obeys_from_spec() -> bool {
        true
    }

    open spec fn from_spec(v: u32) -> Color {
        Color(v)
    }
}

/// Each digit of `d` written twice.
pub open spec fn doubled(d: Seq<char>) -> Seq<char> {
    Seq::new(2 * d.len(), |i: int| d[i / 2])
}

/// `#rgb` and `#rgba` mean the same as `#rrggbb` and `#rrggbbaa`.
#[verifier::rlimit(40)]
pub proof fn lemma_short_form_is_doubled_long_form(d: Seq<char>)
    requires
        d.len() == 3 || d.len() == 4,
    ensures
        spec_parse(seq!['#'] + d) == spec_parse(seq!['#'] + doubled(d)),
{
    let s = seq!['#'] + d;
    let t = seq!['#'] + doubled(d);
    assert(digits_of(s) =~= d);
    assert(digits_of(t) =~= doubled(d));
    let dd = doubled(d);
    if all_hex(d) {
        assert(all_hex(dd)) by {
            assert forall|i: int| 0 <= i < dd.len() implies #[trigger] hex_digit(dd[i]) is Some by {
                assert(dd[i] == d[i / 2]);
            }
        }
        assert(channel_bytes(d) =~= channel_bytes(dd)) by {
            assert forall|k: int| 0 <= k < d.len() implies channel_bytes(d)[k] == channel_bytes(dd)[k] by {
                assert(dd[2 * k] == d[k]);
                assert(dd[2 * k + 1] == d[k]);
            }
        }
    } else {
        let i = choose|i: int| is_first_bad_digit(d, i);
        assert(exists|i: int| is_first_bad_digit(d, i)) by {
            let j = choose|j: int| 0 <= j < d.len() && !(hex_digit(d[j]) is Some);
            if !is_first_bad_digit(d, j) {
                if hex_digit(d[0]) is None {
                    assert(is_first_bad_digit(d, 0));
                } else if hex_digit(d[1]) is None {
                    assert(is_first_bad_digit(d, 1));
                } else if hex_digit(d[2]) is None {
                    assert(is_first_bad_digit(d, 2));
                } else {
                    assert(is_first_bad_digit(d, 3));
                }
            }
        }
        assert(is_first_bad_digit(dd, 2 * i)) by {
            assert(dd[2 * i] == d[i]);
            assert forall|j: int| 0 <= j < 2 * i implies #[trigger] hex_digit(dd[j]) is Some by {
                assert(dd[j] == d[j / 2]);
            }
        }
        assert(!all_hex(dd));
        lemma_first_bad_digit_unique(dd, 2 * i);
        assert(dd[2 * i] == d[i]);
    }
}

/// The long forms: `#rrggbb` is the opaque color of those three bytes, and
/// `#rrggbbaa` the color of those four bytes.
pub proof fn lemma_long_forms(d: Seq<char>)
    requires
        d.len() == 6 || d.len() == 8,
        all_hex(d),
    ensures
        spec_parse(seq!['#'] + d) == Ok::<Color, ColorParseError>(
            Color(
                rgba_value(
                    channel_bytes(d)[0] as int,
                    channel_bytes(d)[1] as int,
                    channel_bytes(d)[2] as int,
                    if d.len() == 8 {
                        channel_bytes(d)[3] as int
                    } else {
                        0xff
                    },
                ) as u32,
            ),
        ),
{
    assert(digits_of(seq!['#'] + d) =~= d);
}

/// Every color parsed from a form without alpha is opaque.
pub proof fn lemma_forms_without_alpha_are_opaque(s: Seq<char>)
    requires
        spec_parse(s) is Ok,
        digits_of(s).len() == 3 || digits_of(s).len() == 6,
    ensures
        spec_parse(s)->Ok_0.0 % 0x100 == 0xff,
{
    let d = digits_of(s);
    let b = channel_bytes(d);
    assert(b.len() == 3);
}

} // verus!
