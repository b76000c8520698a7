//! Aspect ratios as fixed-point numbers, read from the decimal text under
//! which a catalog files its thumbnail variants, and the choice of the
//! variant that is closest to the ratio of the screen.

use vstd::prelude::*;
use vstd::string::is_ascii_spec_bytes;
use vstd::string::StringSliceAdditionalSpecFns;

verus! {

/// The ratio one, in millionths.
pub const RATIO_ONE: u64 = 1_000_000;

/// The largest whole part that a ratio holds: a text that spells more is read
/// as this.
pub const WHOLE_MAX: u64 = 999_999_999;

/// An aspect ratio in millionths.
#[derive(Clone, Copy, Debug, PartialEq, Eq, Structural)]
pub struct Ratio {
    pub millionths: u64,
}

pub open spec fn is_digit(c: char) -> bool {
    '0' <= c <= '9'
}

/// The number that a decimal digit stands for.
pub open spec fn digit_value(c: char) -> nat {
    (c as int - '0' as int) as nat
}

pub open spec fn all_digits(text: Seq<char>) -> bool {
    forall|i: int| 0 <= i < text.len() ==> is_digit(#[trigger] text[i])
}

/// The number that a string of decimal digits spells.
pub open spec fn decimal(digits: Seq<char>) -> nat
    decreases digits.len(),
{
    if digits.len() == 0 {
        0
    } else {
        decimal(digits.drop_last()) * 10 + digit_value(digits.last())
    }
}

/// A whole part, held to what a ratio holds.
pub open spec fn capped(whole: nat) -> nat {
    if whole > WHOLE_MAX {
        WHOLE_MAX as nat
    } else {
        whole
    }
}

/// The millionths that the digits behind the point come to, where the first
/// of them counts `scale` millionths and each further one a tenth of the one
/// before it, rounded down: from the seventh digit on they count nothing.
pub open spec fn fraction(digits: Seq<char>, scale: nat) -> nat
    decreases digits.len(),
{
    if digits.len() == 0 {
        0
    } else {
        digit_value(digits.first()) * scale + fraction(digits.drop_first(), scale / 10)
    }
}

/// Where the first point of `text` stands; the length of `text` where it has
/// none.
pub open spec fn point_at(text: Seq<char>) -> int
    decreases text.len(),
{
    if text.len() == 0 || text[0] == '.' {
        0
    } else {
        1 + point_at(text.drop_first())
    }
}

/// What stands before the first point of `text`.
pub open spec fn whole_part(text: Seq<char>) -> Seq<char> {
    text.subrange(0, point_at(text))
}

/// What stands behind the first point of `text`; nothing where it has none.
pub open spec fn behind_part(text: Seq<char>) -> Seq<char> {
    if point_at(text) < text.len() {
        text.subrange(point_at(text) + 1, text.len() as int)
    } else {
        Seq::empty()
    }
}

/// The ratio that `text` spells, in millionths. A ratio is spelt by decimal
/// digits with at most one point among them, before them or behind them, and
/// at least one digit. The digits behind the point are read down to the
/// millionth and cut behind it; a whole part beyond [`WHOLE_MAX`] is read as
/// [`WHOLE_MAX`]. Any other text, one with a sign or an exponent among them,
/// spells no ratio.
pub open spec fn ratio_of(text: Seq<char>) -> Option<nat> {
    let whole = whole_part(text);
    let behind = behind_part(text);
    if all_digits(whole) && all_digits(behind) && whole.len() + behind.len() >= 1 {
        Some(
            capped(decimal(whole)) * (RATIO_ONE as nat) + fraction(
                behind,
                (RATIO_ONE / 10) as nat,
            ),
        )
    } else {
        None
    }
}

/// The first point stands where no point stands before it.
proof fn lemma_point_at(text: Seq<char>, i: int)
    requires
        0 <= i <= text.len(),
        forall|j: int| 0 <= j < i ==> text[j] != '.',
    ensures
        point_at(text) >= i,
        (i == text.len() || text[i] == '.') ==> point_at(text) == i,
        point_at(text) <= text.len(),
    decreases text.len(),
{
    if text.len() > 0 && text[0] != '.' {
        let rest = text.drop_first();
        if i == 0 {
            lemma_point_at(rest, 0);
        } else {
            assert forall|j: int| 0 <= j < i - 1 implies rest[j] != '.' by {
                assert(rest[j] == text[j + 1]);
            }
            lemma_point_at(rest, i - 1);
        }
    }
}

/// No point stands before the first point, and a point stands there unless
/// the text has none.
proof fn lemma_first_point(text: Seq<char>)
    ensures
        0 <= point_at(text) <= text.len(),
        point_at(text) < text.len() ==> text[point_at(text)] == '.',
        forall|j: int| 0 <= j < point_at(text) ==> text[j] != '.',
    decreases text.len(),
{
    if text.len() > 0 && text[0] != '.' {
        let rest = text.drop_first();
        lemma_first_point(rest);
        assert forall|j: int| 0 <= j < point_at(text) implies text[j] != '.' by {
            if j > 0 {
                assert(rest[j - 1] == text[j]);
            }
        }
        if point_at(text) < text.len() {
            assert(rest[point_at(rest)] == text[point_at(text)]);
        }
    }
}

/// A text with a character that is neither a digit nor a point spells no
/// ratio, and neither does one with a second point.
proof fn lemma_stray_char(text: Seq<char>, j: int)
    requires
        0 <= j < text.len(),
        !is_digit(text[j]),
        j != point_at(text),
    ensures
        ratio_of(text) is None,
{
    lemma_first_point(text);
    let point = point_at(text);
    if j < point {
        assert(whole_part(text)[j] == text[j]);
    } else {
        assert(behind_part(text)[j - point - 1] == text[j]);
    }
}

/// A digit more at the end of a whole part.
proof fn lemma_capped_push(digits: Seq<char>, c: char)
    requires
        is_digit(c),
    ensures
        capped(decimal(digits.push(c))) == capped(capped(decimal(digits)) * 10 + digit_value(c)),
{
    assert(digits.push(c).drop_last() =~= digits);
}

/// Adding a digit at the end of the digits behind the point adds what that
/// digit counts at its place.
proof fn lemma_fraction_push(digits: Seq<char>, c: char, scale: nat, last_scale: nat)
    requires
        last_scale == scale_after(scale, digits.len()),
    ensures
        fraction(digits.push(c), scale) == fraction(digits, scale) + digit_value(c) * last_scale,
    decreases digits.len(),
{
    if digits.len() == 0 {
        assert(digits.push(c).drop_first() =~= Seq::<char>::empty());
        assert(fraction(Seq::<char>::empty(), scale / 10) == 0);
    } else {
        assert(digits.push(c).drop_first() =~= digits.drop_first().push(c));
        lemma_scale_after_step(scale, digits.len());
        lemma_fraction_push(digits.drop_first(), c, scale / 10, last_scale);
    }
}

/// What a digit counts that stands `places` places behind the first one.
pub open spec fn scale_after(scale: nat, places: nat) -> nat
    decreases places,
{
    if places == 0 {
        scale
    } else {
        scale_after(scale / 10, (places - 1) as nat)
    }
}

proof fn lemma_scale_after_step(scale: nat, places: nat)
    requires
        places > 0,
    ensures
        scale_after(scale, places) == scale_after(scale / 10, (places - 1) as nat),
        scale_after(scale, places) == scale_after(scale, (places - 1) as nat) / 10,
    decreases places,
{
    if places > 1 {
        lemma_scale_after_step(scale / 10, (places - 1) as nat);
    }
}

/// Reads a ratio: see [`ratio_of`].
pub fn parse_ratio(text: &str) -> (r: Option<Ratio>)
    ensures
        match r {
            Some(ratio) => ratio_of(text@) == Some(ratio.millionths as nat),
            None => ratio_of(text@) is None,
        },
{
    let ghost chars = text@;
    proof {
        lemma_first_point(chars);
    }
    if !text.is_ascii() {
        proof {
            let j = choose|j: int| 0 <= j < chars.len() && !('\0' <= #[trigger] chars[j] <= '\u{7f}');
            lemma_stray_char(chars, j);
        }
        return None;
    }
    let bytes = text.as_bytes();
    let length: usize = bytes.len();
    proof {
        is_ascii_spec_bytes(text);
        assert forall|j: int| 0 <= j < length implies (#[trigger] bytes@[j]) as int
            == chars[j] as int by {
            assert('\0' <= chars[j] <= '\u{7f}');
            assert(text.spec_bytes()[j] == chars[j] as u8);
        }
    }
    let mut i: usize = 0;
    let mut whole: u64 = 0;
    while i < length
        invariant
            chars == text@,
            length == chars.len(),
            length == bytes@.len(),
            forall|j: int| 0 <= j < length ==> (#[trigger] bytes@[j]) as int == chars[j] as int,
            i <= length,
            forall|j: int| 0 <= j < i ==> is_digit(#[trigger] chars[j]),
            whole == capped(decimal(chars.subrange(0, i as int))),
        ensures
            i < length ==> !is_digit(chars[i as int]),
        decreases length - i,
    {
        let b: u8 = bytes[i];
        assert(b as int == chars[i as int] as int);
        if !(b >= 48 && b <= 57) {
            break;
        }
        let d: u64 = (b - 48) as u64;
        proof {
            let c = chars[i as int];
            assert(chars.subrange(0, i + 1) =~= chars.subrange(0, i as int).push(c));
            lemma_capped_push(chars.subrange(0, i as int), c);
        }
        whole = if whole * 10 + d > WHOLE_MAX {
            WHOLE_MAX
        } else {
            whole * 10 + d
        };
        i += 1;
    }
    proof {
        assert forall|j: int| 0 <= j < i implies chars[j] != '.' by {
            assert(is_digit(chars[j]));
        }
        if i < length {
            assert(bytes@[i as int] as int == chars[i as int] as int);
        }
    }
    if i < length && bytes[i] != 46 {
        proof {
            lemma_point_at(chars, i as int + 1);
            lemma_stray_char(chars, i as int);
        }
        return None;
    }
    proof {
        lemma_point_at(chars, i as int);
        assert(whole_part(chars) =~= chars.subrange(0, i as int));
    }
    let start: usize = if i < length {
        i + 1
    } else {
        i
    };
    let mut k: usize = start;
    let mut behind: u64 = 0;
    let mut scale: u64 = RATIO_ONE / 10;
    proof {
        assert(behind_part(chars) =~= chars.subrange(start as int, length as int));
        assert(fraction(chars.subrange(start as int, k as int), (RATIO_ONE / 10) as nat) == 0);
    }
    while k < length
        invariant
            chars == text@,
            length == chars.len(),
            length == bytes@.len(),
            forall|j: int| 0 <= j < length ==> (#[trigger] bytes@[j]) as int == chars[j] as int,
            i == point_at(chars),
            start == i + 1 || start == length,
            i <= start <= k <= length,
            behind_part(chars) == chars.subrange(start as int, length as int),
            forall|j: int| start <= j < k ==> is_digit(#[trigger] chars[j]),
            behind == fraction(chars.subrange(start as int, k as int), (RATIO_ONE / 10) as nat),
            scale == scale_after((RATIO_ONE / 10) as nat, (k - start) as nat),
            behind + 10 * scale <= RATIO_ONE,
            behind < RATIO_ONE,
        decreases length - k,
    {
        let b: u8 = bytes[k];
        assert(b as int == chars[k as int] as int);
        if !(b >= 48 && b <= 57) {
            proof {
                lemma_stray_char(chars, k as int);
            }
            return None;
        }
        let d: u64 = (b - 48) as u64;
        proof {
            let c = chars[k as int];
            let sofar = chars.subrange(start as int, k as int);
            assert(chars.subrange(start as int, k + 1) =~= sofar.push(c));
            lemma_fraction_push(sofar, c, (RATIO_ONE / 10) as nat, scale as nat);
            lemma_scale_after_step((RATIO_ONE / 10) as nat, (k - start + 1) as nat);
            assert(d * scale <= 9 * scale) by (nonlinear_arith)
                requires
                    d <= 9,
                    scale >= 0,
            ;
        }
        behind = behind + d * scale;
        scale = scale / 10;
        k += 1;
    }
    if i + (length - start) == 0 {
        return None;
    }
    proof {
        assert(all_digits(whole_part(chars)));
        assert(all_digits(behind_part(chars))) by {
            assert forall|j: int| 0 <= j < behind_part(chars).len() implies is_digit(
                #[trigger] behind_part(chars)[j],
            ) by {
                assert(behind_part(chars)[j] == chars[start + j]);
            }
        }
        assert(whole * RATIO_ONE <= 999_999_999 * 1_000_000) by (nonlinear_arith)
            requires
                whole <= 999_999_999,
                RATIO_ONE == 1_000_000,
        ;
    }
    Some(Ratio { millionths: whole * RATIO_ONE + behind })
}

/// How far two ratios are apart.
pub open spec fn distance(a: nat, b: nat) -> nat {
    if a >= b {
        (a - b) as nat
    } else {
        (b - a) as nat
    }
}

/// `i` is the place of the ratio closest to `target`: none is closer, and of
/// those that are as close it is the first.
pub open spec fn is_closest(ratios: Seq<Ratio>, target: Ratio, i: int) -> bool {
    &&& 0 <= i < ratios.len()
    &&& forall|j: int|
        0 <= j < ratios.len() ==> gap_at(ratios, target, i) <= #[trigger] gap_at(ratios, target, j)
    &&& forall|j: int| 0 <= j < i ==> gap_at(ratios, target, i) < #[trigger] gap_at(ratios, target, j)
}

/// How far the ratio at place `j` is from `target`.
pub open spec fn gap_at(ratios: Seq<Ratio>, target: Ratio, j: int) -> nat {
    distance(ratios[j].millionths as nat, target.millionths as nat)
}

/// The place of the ratio closest to `target`, where there is any ratio.
pub open spec fn closest_place(ratios: Seq<Ratio>, target: Ratio) -> Option<int> {
    if ratios.len() == 0 {
        None
    } else {
        Some(choose|i: int| is_closest(ratios, target, i))
    }
}

/// There is one closest place, not two.
pub proof fn lemma_closest_is_unique(ratios: Seq<Ratio>, target: Ratio, i: int, j: int)
    requires
        is_closest(ratios, target, i),
        is_closest(ratios, target, j),
    ensures
        i == j,
{
    if i < j {
        assert(gap_at(ratios, target, i) <= gap_at(ratios, target, j));
    }
    if j < i {
        assert(gap_at(ratios, target, j) <= gap_at(ratios, target, i));
    }
}

/// Finds the ratio closest to `target`: see [`is_closest`].
pub fn closest(ratios: &Vec<Ratio>, target: Ratio) -> (r: Option<usize>)
    ensures
        match r {
            Some(i) => is_closest(ratios@, target, i as int) && closest_place(ratios@, target)
                == Some(i as int),
            None => ratios.len() == 0,
        },
{
    if ratios.len() == 0 {
        return None;
    }
    let mut best: usize = 0;
    let mut best_distance: u64 = gap(ratios[0], target);
    let mut i: usize = 1;
    while i < ratios.len()
        invariant
            1 <= i <= ratios.len(),
            best < i,
            best_distance == gap_at(ratios@, target, best as int),
            forall|j: int| 0 <= j < i ==> best_distance <= #[trigger] gap_at(ratios@, target, j),
            forall|j: int| 0 <= j < best ==> best_distance < #[trigger] gap_at(ratios@, target, j),
        decreases ratios.len() - i,
    {
        let d: u64 = gap(ratios[i], target);
        if d < best_distance {
            best = i;
            best_distance = d;
        }
        i += 1;
    }
    proof {
        assert(is_closest(ratios@, target, best as int));
        let chosen = choose|i: int| is_closest(ratios@, target, i);
        lemma_closest_is_unique(ratios@, target, best as int, chosen);
    }
    Some(best)
}

/// How far two ratios are apart.
pub fn gap(a: Ratio, b: Ratio) -> (r: u64)
    ensures
        r == distance(a.millionths as nat, b.millionths as nat),
{
    if a.millionths >= b.millionths {
        a.millionths - b.millionths
    } else {
        b.millionths - a.millionths
    }
}

impl Ratio {
    /// The ratio of `numerator` to `denominator`, rounded down to a
    /// millionth; `None` where the denominator is zero.
    pub fn from_fraction(numerator: u32, denominator: u32) -> (r: Option<Ratio>)
        ensures
            denominator == 0 ==> r is None,
            denominator > 0 ==> r == Some(
                Ratio { millionths: ((numerator * RATIO_ONE) / (denominator as int)) as u64 },
            ),
    {
        if denominator == 0 {
            None
        } else {
            assert(numerator * RATIO_ONE <= u32::MAX * RATIO_ONE) by (nonlinear_arith)
                requires
                    numerator <= u32::MAX,
            ;
            let scaled: u64 = numerator as u64 * RATIO_ONE;
            assert(scaled / (denominator as u64) <= scaled) by (nonlinear_arith)
                requires
                    denominator >= 1,
                    scaled >= 0,
            ;
            Some(Ratio { millionths: scaled / denominator as u64 })
        }
    }
}

} // verus!
