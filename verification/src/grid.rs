//! The map grid reference typed in the settings window.
//!
//! A grid reference is six characters after surrounding whitespace is
//! removed: three for the east and three for the north index of a 100 m grid
//! square. The base of the square, in metres, is the pair of indices times
//! 100. A reference that is too short or does not read as two numbers gives
//! the origin.

use vstd::prelude::*;
use vstd::string::StringSliceAdditionalSpecFns;
use vstd::utf8::*;

verus! {

broadcast use vstd::utf8::encode_utf8_valid_utf8;

/// Side of a grid square in metres.
pub const GRID_SQUARE_METRES: i32 = 100;

/// `b` is an ASCII decimal digit.
pub open spec fn is_digit(b: u8) -> bool {
    48 <= b <= 57
}

/// Every byte of `b` is an ASCII decimal digit.
pub open spec fn all_digits(b: Seq<u8>) -> bool {
    forall|i: int| 0 <= i < b.len() ==> #[trigger] is_digit(b[i])
}

/// The number that the decimal digits `b` write.
pub open spec fn digits_value(b: Seq<u8>) -> int
    decreases b.len(),
{
    if b.len() == 0 {
        0
    } else {
        digits_value(b.drop_last()) * 10 + (b.last() - 48)
    }
}

/// The integer that the bytes `b` write in Rust's decimal integer syntax: an
/// optional `+` or `-` followed by one or more decimal digits and nothing
/// else; `None` where `b` is not of that form.
pub open spec fn decimal_value(b: Seq<u8>) -> Option<int> {
    if b.len() > 0 && (b[0] == 43 || b[0] == 45) {
        let rest = b.drop_first();
        if rest.len() > 0 && all_digits(rest) {
            Some(if b[0] == 45 { -digits_value(rest) } else { digits_value(rest) })
        } else {
            None
        }
    } else if b.len() > 0 && all_digits(b) {
        Some(digits_value(b))
    } else {
        None
    }
}

/// The two 3-byte fields of a reference of at least six bytes begin and end
/// on character boundaries (where they do not, the fields cannot be cut out
/// of the text).
pub open spec fn fields_on_boundaries(bytes: Seq<u8>) -> bool {
    bytes.len() >= 6 ==> is_char_boundary(bytes, 3) && is_char_boundary(bytes, 6)
}

/// The base, in metres, of the grid square that the (already trimmed)
/// reference with UTF-8 bytes `bytes` names.
pub open spec fn grid_base(bytes: Seq<u8>) -> (int, int) {
    if bytes.len() >= 6 {
        match (decimal_value(bytes.subrange(0, 3)), decimal_value(bytes.subrange(3, 6))) {
            (Some(x), Some(z)) => (x * 100, z * 100),
            _ => (0, 0),
        }
    } else {
        (0, 0)
    }
}

/// `c` has the Unicode White_Space property (the whitespace that
/// `str::trim` removes).
pub open spec fn is_white_space(c: char) -> bool {
    ||| '\u{9}' <= c <= '\u{d}'
    ||| c == ' '
    ||| c == '\u{85}'
    ||| c == '\u{a0}'
    ||| c == '\u{1680}'
    ||| '\u{2000}' <= c <= '\u{200a}'
    ||| c == '\u{2028}'
    ||| c == '\u{2029}'
    ||| c == '\u{202f}'
    ||| c == '\u{205f}'
    ||| c == '\u{3000}'
}

/// Every character of `s` is whitespace.
pub open spec fn all_white_space(s: Seq<char>) -> bool {
    forall|i: int| 0 <= i < s.len() ==> #[trigger] is_white_space(s[i])
}

/// `s` without its leading whitespace.
pub open spec fn trim_start_chars(s: Seq<char>) -> Seq<char>
    decreases s.len(),
{
    if s.len() > 0 && is_white_space(s[0]) {
        trim_start_chars(s.drop_first())
    } else {
        s
    }
}

/// `s` without its trailing whitespace.
pub open spec fn trim_end_chars(s: Seq<char>) -> Seq<char>
    decreases s.len(),
{
    if s.len() > 0 && is_white_space(s.last()) {
        trim_end_chars(s.drop_last())
    } else {
        s
    }
}

/// `s` without its leading and trailing whitespace.
pub open spec fn trim_chars(s: Seq<char>) -> Seq<char> {
    trim_end_chars(trim_start_chars(s))
}

/// The UTF-8 bytes of the grid reference `map_kv` once trimmed.
pub open spec fn trimmed_bytes(map_kv: Seq<char>) -> Seq<u8> {
    encode_utf8(trim_chars(map_kv))
}

/// Calls `str::trim`. Claims that the result is `s` with its leading and
/// trailing whitespace removed, whitespace being the characters of the
/// Unicode White_Space property, as `is_white_space` lists them.
#[verifier::external_body]
fn trim(s: &str) -> (t: &str)
    ensures
        t@ == trim_chars(s@),
{
    s.trim()
}

/// Leading whitespace does not change what trimming the start leaves.
proof fn lemma_trim_start_skips_white_space(w: Seq<char>, x: Seq<char>)
    requires
        all_white_space(w),
    ensures
        trim_start_chars(w + x) == trim_start_chars(x),
    decreases w.len(),
{
    if w.len() > 0 {
        assert(is_white_space(w[0]));
        assert((w + x).drop_first() =~= w.drop_first() + x);
        lemma_trim_start_skips_white_space(w.drop_first(), x);
    } else {
        assert(w + x =~= x);
    }
}

/// Trailing whitespace does not change what trimming the end leaves.
proof fn lemma_trim_end_skips_white_space(x: Seq<char>, w: Seq<char>)
    requires
        all_white_space(w),
    ensures
        trim_end_chars(x + w) == trim_end_chars(x),
    decreases w.len(),
{
    if w.len() > 0 {
        assert(is_white_space(w[w.len() - 1]));
        assert((x + w).drop_last() =~= x + w.drop_last());
        lemma_trim_end_skips_white_space(x, w.drop_last());
    } else {
        assert(x + w =~= x);
    }
}

/// Trimming the start of `s` followed by whitespace `w`: `w` stays behind
/// what is left of `s`, unless all of `s` is whitespace.
proof fn lemma_trim_start_append(s: Seq<char>, w: Seq<char>)
    requires
        all_white_space(w),
    ensures
        all_white_space(s) ==> trim_start_chars(s + w) == Seq::<char>::empty()
            && trim_start_chars(s) == Seq::<char>::empty(),
        !all_white_space(s) ==> trim_start_chars(s + w) == trim_start_chars(s) + w,
    decreases s.len(),
{
    if s.len() == 0 {
        assert(s + w =~= w);
        lemma_trim_start_skips_white_space(w, Seq::<char>::empty());
        assert(w + Seq::<char>::empty() =~= w);
    } else {
        assert((s + w)[0] == s[0]);
        assert((s + w).drop_first() =~= s.drop_first() + w);
        lemma_trim_start_append(s.drop_first(), w);
        if is_white_space(s[0]) {
            assert(all_white_space(s.drop_first()) ==> all_white_space(s)) by {
                if all_white_space(s.drop_first()) {
                    assert forall|i: int| 0 <= i < s.len() implies #[trigger] is_white_space(
                        s[i],
                    ) by {
                        if i > 0 {
                            assert(s[i] == s.drop_first()[i - 1]);
                        }
                    }
                }
            }
            assert(all_white_space(s) ==> all_white_space(s.drop_first())) by {
                if all_white_space(s) {
                    assert forall|i: int| 0 <= i < s.drop_first().len() implies #[trigger] is_white_space(
                        s.drop_first()[i],
                    ) by {
                        assert(s.drop_first()[i] == s[i + 1]);
                    }
                }
            }
        } else {
            assert(!is_white_space(s[0]));
        }
    }
}

/// Surrounding a text with whitespace does not change what trimming leaves
/// of it.
pub proof fn lemma_trim_ignores_surrounding_white_space(w1: Seq<char>, s: Seq<char>, w2: Seq<char>)
    requires
        all_white_space(w1),
        all_white_space(w2),
    ensures
        trim_chars(w1 + s + w2) == trim_chars(s),
{
    assert(w1 + s + w2 =~= w1 + (s + w2));
    lemma_trim_start_skips_white_space(w1, s + w2);
    lemma_trim_start_append(s, w2);
    if !all_white_space(s) {
        lemma_trim_end_skips_white_space(trim_start_chars(s), w2);
    }
}

/// The grid square a reference names does not depend on whitespace around
/// the reference.
pub proof fn lemma_grid_base_ignores_surrounding_white_space(
    w1: Seq<char>,
    s: Seq<char>,
    w2: Seq<char>,
)
    requires
        all_white_space(w1),
        all_white_space(w2),
    ensures
        trimmed_bytes(w1 + s + w2) == trimmed_bytes(s),
        grid_base(trimmed_bytes(w1 + s + w2)) == grid_base(trimmed_bytes(s)),
        fields_on_boundaries(trimmed_bytes(w1 + s + w2)) == fields_on_boundaries(trimmed_bytes(s)),
{
    lemma_trim_ignores_surrounding_white_space(w1, s, w2);
}

/// Trimming the start of an ASCII text leaves ASCII text.
proof fn lemma_trim_start_ascii(s: Seq<char>)
    requires
        is_ascii_chars(s),
    ensures
        is_ascii_chars(trim_start_chars(s)),
    decreases s.len(),
{
    if s.len() > 0 && is_white_space(s[0]) {
        assert forall|i: int| 0 <= i < s.drop_first().len() implies '\0' <= #[trigger] s.drop_first()[i]
            <= '\u{7f}' by {
            assert(s.drop_first()[i] == s[i + 1]);
        }
        lemma_trim_start_ascii(s.drop_first());
    }
}

/// Trimming the end of an ASCII text leaves ASCII text.
proof fn lemma_trim_end_ascii(s: Seq<char>)
    requires
        is_ascii_chars(s),
    ensures
        is_ascii_chars(trim_end_chars(s)),
    decreases s.len(),
{
    if s.len() > 0 && is_white_space(s.last()) {
        assert forall|i: int| 0 <= i < s.drop_last().len() implies '\0' <= #[trigger] s.drop_last()[i]
            <= '\u{7f}' by {
            assert(s.drop_last()[i] == s[i]);
        }
        lemma_trim_end_ascii(s.drop_last());
    }
}

/// In a reference written in ASCII every byte begins a character, so its
/// fields can always be cut out.
pub proof fn lemma_ascii_fields_on_boundaries(chars: Seq<char>)
    requires
        is_ascii_chars(chars),
    ensures
        fields_on_boundaries(encode_utf8(chars)),
{
    broadcast use is_ascii_chars_encode_utf8, is_char_boundary_iff_is_leading_byte,
        is_char_boundary_start_end_of_seq;

    let b = encode_utf8(chars);
    if b.len() >= 6 {
        assert(chars[3] as u8 == b[3]);
        assert(is_leading_byte_width_1(b[3]));
        assert(is_char_boundary(b, 3));
        if b.len() > 6 {
            assert(chars[6] as u8 == b[6]);
            assert(is_leading_byte_width_1(b[6]));
        }
        assert(is_char_boundary(b, 6));
    }
}

/// One 3-byte field at `lo`, read as a decimal integer.
fn parse_field(b: &[u8], lo: usize) -> (r: Option<i32>)
    requires
        lo + 3 <= b@.len(),
    ensures
        match decimal_value(b@.subrange(lo as int, lo + 3)) {
            Some(v) => r == Some(v as i32) && -99 <= v <= 999,
            None => r is None,
        },
{
    let ghost f = b@.subrange(lo as int, lo + 3);
    let c0 = b[lo];
    let c1 = b[lo + 1];
    let c2 = b[lo + 2];
    assert(f[0] == c0 && f[1] == c1 && f[2] == c2);
    let ghost rest = f.drop_first();
    assert(rest.drop_last() =~= seq![c1]);
    assert(seq![c1].drop_last() =~= Seq::<u8>::empty());
    assert(f.drop_last() =~= seq![c0, c1]);
    assert(seq![c0, c1].drop_last() =~= seq![c0]);
    assert(seq![c0].drop_last() =~= Seq::<u8>::empty());
    reveal_with_fuel(digits_value, 4);
    if 48 <= c1 && c1 <= 57 && 48 <= c2 && c2 <= 57 {
        let tail: i32 = (c1 - 48) as i32 * 10 + (c2 - 48) as i32;
        assert(all_digits(rest));
        assert(digits_value(rest) == tail);
        if c0 == 43 {
            Some(tail)
        } else if c0 == 45 {
            Some(-tail)
        } else if 48 <= c0 && c0 <= 57 {
            assert(all_digits(f));
            assert(digits_value(f) == (c0 - 48) * 100 + tail);
            Some((c0 - 48) as i32 * 100 + tail)
        } else {
            assert(!is_digit(f[0]));
            None
        }
    } else {
        if is_digit_exec(c1) {
            assert(!is_digit(f[2]) && !is_digit(rest[1]));
        } else {
            assert(!is_digit(f[1]) && !is_digit(rest[0]));
        }
        None
    }
}

fn is_digit_exec(b: u8) -> (r: bool)
    ensures
        r == is_digit(b),
{
    48 <= b && b <= 57
}

/// The base, in metres, of the grid square named by the already trimmed
/// reference `s`.
pub fn parse_grid_square(s: &str) -> (base: (i32, i32))
    requires
        fields_on_boundaries(s.spec_bytes()),
    ensures
        base.0 == grid_base(s.spec_bytes()).0,
        base.1 == grid_base(s.spec_bytes()).1,
        base.0 % 100 == 0 && base.1 % 100 == 0,
        -9900 <= base.0 <= 99900 && -9900 <= base.1 <= 99900,
{
    let b = s.as_bytes();
    if b.len() >= 6 {
        let x = parse_field(b, 0);
        let z = parse_field(b, 3);
        match (x, z) {
            (Some(xp), Some(zp)) => (xp * GRID_SQUARE_METRES, zp * GRID_SQUARE_METRES),
            _ => (0, 0),
        }
    } else {
        (0, 0)
    }
}

/// The base, in metres, of the grid square named by the reference `map_kv`,
/// whitespace around it ignored.
pub fn parse_map_kv_base(map_kv: &str) -> (base: (i32, i32))
    requires
        fields_on_boundaries(trimmed_bytes(map_kv@)),
    ensures
        base.0 == grid_base(trimmed_bytes(map_kv@)).0,
        base.1 == grid_base(trimmed_bytes(map_kv@)).1,
{
    let s = trim(map_kv);
    parse_grid_square(s)
}

/// As `parse_map_kv_base`, for any reference: `None` exactly where a field
/// of the trimmed reference would have to be cut inside a character.
pub fn checked_parse_map_kv_base(map_kv: &str) -> (base: Option<(i32, i32)>)
    ensures
        base is Some <==> fields_on_boundaries(trimmed_bytes(map_kv@)),
        is_ascii_chars(map_kv@) ==> base is Some,
        base matches Some(v) ==> v.0 == grid_base(trimmed_bytes(map_kv@)).0 && v.1 == grid_base(
            trimmed_bytes(map_kv@),
        ).1,
{
    let s = trim(map_kv);
    proof {
        if is_ascii_chars(map_kv@) {
            lemma_trim_start_ascii(map_kv@);
            lemma_trim_end_ascii(trim_start_chars(map_kv@));
            lemma_ascii_fields_on_boundaries(s@);
        }
    }
    let b = s.as_bytes();
    if b.len() >= 6 && !(s.is_char_boundary(3) && s.is_char_boundary(6)) {
        None
    } else {
        Some(parse_map_kv_base(map_kv))
    }
}

/// Value of an ASCII digit byte.
pub open spec fn digit(b: u8) -> int {
    b - 48
}

/// How one 3-byte field reads: three digits give the number they write; a
/// sign followed by two digits gives that two-digit number with the sign;
/// anything else does not read.
pub proof fn lemma_field_reads(f: Seq<u8>)
    requires
        f.len() == 3,
    ensures
        is_digit(f[0]) && is_digit(f[1]) && is_digit(f[2]) ==> decimal_value(f) == Some(
            100 * digit(f[0]) + 10 * digit(f[1]) + digit(f[2]),
        ),
        f[0] == 43 && is_digit(f[1]) && is_digit(f[2]) ==> decimal_value(f) == Some(
            10 * digit(f[1]) + digit(f[2]),
        ),
        f[0] == 45 && is_digit(f[1]) && is_digit(f[2]) ==> decimal_value(f) == Some(
            -(10 * digit(f[1]) + digit(f[2])),
        ),
        !(is_digit(f[1]) && is_digit(f[2])) ==> decimal_value(f) is None,
        !(is_digit(f[0]) || f[0] == 43 || f[0] == 45) ==> decimal_value(f) is None,
{
    let rest = f.drop_first();
    assert(rest.drop_last() =~= seq![f[1]]);
    assert(seq![f[1]].drop_last() =~= Seq::<u8>::empty());
    assert(f.drop_last() =~= seq![f[0], f[1]]);
    assert(seq![f[0], f[1]].drop_last() =~= seq![f[0]]);
    assert(seq![f[0]].drop_last() =~= Seq::<u8>::empty());
    reveal_with_fuel(digits_value, 4);
    assert(rest[0] == f[1] && rest[1] == f[2]);
    if is_digit(f[1]) && is_digit(f[2]) {
        assert(all_digits(rest));
        if is_digit(f[0]) {
            assert(all_digits(f));
        }
    } else if !is_digit(f[1]) {
        assert(!is_digit(rest[0]));
    } else {
        assert(!is_digit(rest[1]) && !is_digit(f[2]));
    }
}

/// The first field of a reference is the east index and the second the
/// north index, in that order: when both fields read, the base is (east
/// index × 100, north index × 100), whatever their sizes; otherwise, and for
/// a reference shorter than six bytes, it is the origin.
pub proof fn lemma_grid_base_fields(b: Seq<u8>)
    ensures
        b.len() < 6 ==> grid_base(b) == (0int, 0int),
        b.len() >= 6 ==> match (decimal_value(b.subrange(0, 3)), decimal_value(b.subrange(3, 6))) {
            (Some(east), Some(north)) => grid_base(b).0 == 100 * east && grid_base(b).1 == 100
                * north,
            _ => grid_base(b) == (0int, 0int),
        },
{
}

/// A reference whose first six bytes are digits names the square with east
/// index written by the first three digits and north index by the next three.
pub proof fn lemma_grid_base_digits(b: Seq<u8>)
    requires
        b.len() >= 6,
        forall|i: int| 0 <= i < 6 ==> #[trigger] is_digit(b[i]),
    ensures
        grid_base(b).0 == 100 * (100 * digit(b[0]) + 10 * digit(b[1]) + digit(b[2])),
        grid_base(b).1 == 100 * (100 * digit(b[3]) + 10 * digit(b[4]) + digit(b[5])),
{
    let f = b.subrange(0, 3);
    let g = b.subrange(3, 6);
    assert(is_digit(b[0]) && is_digit(b[1]) && is_digit(b[2]));
    assert(is_digit(b[3]) && is_digit(b[4]) && is_digit(b[5]));
    assert(f[0] == b[0] && f[1] == b[1] && f[2] == b[2]);
    assert(g[0] == b[3] && g[1] == b[4] && g[2] == b[5]);
    lemma_field_reads(f);
    lemma_field_reads(g);
    lemma_grid_base_fields(b);
}

} // verus!
