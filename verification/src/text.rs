//! Numerals, lists and searches in text.
use vstd::prelude::*;

verus! {

/// The digit of value `d`, for a value below ten.
pub open spec fn digit(d: int) -> char {
    ('0' as int + d) as char
}

/// The numeral of `n` in the given base, most significant digit first and without leading zeros.
pub open spec fn numeral(n: nat, base: nat) -> Seq<char>
    decreases n,
{
    if base < 2 || n < base {
        seq![digit(n as int)]
    } else {
        proof {
            assert(n / base < n) by (nonlinear_arith)
                requires
                    base >= 2,
                    n >= base,
            ;
        }
        numeral(n / base, base).push(digit((n % base) as int))
    }
}

/// The decimal numeral of an integer, with a sign in front of a negative one.
pub open spec fn decimal(n: int) -> Seq<char> {
    if n < 0 {
        seq!['-'] + numeral((-n) as nat, 10)
    } else {
        numeral(n as nat, 10)
    }
}

/// The octal numeral of a number.
pub open spec fn octal(n: nat) -> Seq<char> {
    numeral(n, 8)
}

/// The parts in order, with `separator` between each two of them.
pub open spec fn joined(parts: Seq<Seq<char>>, separator: Seq<char>) -> Seq<char>
    decreases parts.len(),
{
    if parts.len() == 0 {
        Seq::empty()
    } else if parts.len() == 1 {
        parts[0]
    } else {
        joined(parts.drop_last(), separator) + separator + parts.last()
    }
}

/// Whether `needle` stands at position `at` of `haystack`.
pub open spec fn stands_at(haystack: Seq<char>, needle: Seq<char>, at: int) -> bool {
    0 <= at && at + needle.len() <= haystack.len() && haystack.subrange(at, at + needle.len())
        == needle
}

/// Whether `needle` stands anywhere in `haystack`.
pub open spec fn occurs(haystack: Seq<char>, needle: Seq<char>) -> bool {
    exists|at: int| stands_at(haystack, needle, at)
}

/// Whether `haystack` ends in `needle`.
pub open spec fn ends_in(haystack: Seq<char>, needle: Seq<char>) -> bool {
    stands_at(haystack, needle, haystack.len() - needle.len())
}

fn digit_text(d: u64) -> (text: &'static str)
    requires
        d < 10,
    ensures
        text@ == seq![digit(d as int)],
{
    proof {
        reveal_strlit("0");
        reveal_strlit("1");
        reveal_strlit("2");
        reveal_strlit("3");
        reveal_strlit("4");
        reveal_strlit("5");
        reveal_strlit("6");
        reveal_strlit("7");
        reveal_strlit("8");
        reveal_strlit("9");
    }
    if d == 0 {
        "0"
    } else if d == 1 {
        "1"
    } else if d == 2 {
        "2"
    } else if d == 3 {
        "3"
    } else if d == 4 {
        "4"
    } else if d == 5 {
        "5"
    } else if d == 6 {
        "6"
    } else if d == 7 {
        "7"
    } else if d == 8 {
        "8"
    } else {
        "9"
    }
}

fn write_numeral(n: u64, base: u64) -> (text: String)
    requires
        2 <= base <= 10,
    ensures
        text@ == numeral(n as nat, base as nat),
    decreases n,
{
    if n < base {
        digit_text(n).to_owned()
    } else {
        assert(n / base < n) by (nonlinear_arith)
            requires
                base >= 2,
                n >= base,
        ;
        let mut text = write_numeral(n / base, base);
        text.append(digit_text(n % base));
        text
    }
}

/// Writes an integer in decimal.
pub fn write_decimal(n: i64) -> (text: String)
    ensures
        text@ == decimal(n as int),
{
    if n < 0 {
        proof {
            reveal_strlit("-");
        }
        let mut text = "-".to_owned();
        let magnitude: u64 = if n == i64::MIN {
            0x8000_0000_0000_0000
        } else {
            (-n) as u64
        };
        text.append(write_numeral(magnitude, 10).as_str());
        assert("-"@ =~= seq!['-']);
        text
    } else {
        write_numeral(n as u64, 10)
    }
}

/// Writes a number in decimal.
pub fn write_unsigned(n: u64) -> (text: String)
    ensures
        text@ == decimal(n as int),
{
    write_numeral(n, 10)
}

/// Writes a number in octal.
pub fn write_octal(n: u64) -> (text: String)
    ensures
        text@ == octal(n as nat),
{
    write_numeral(n, 8)
}

/// Joins the parts, with `separator` between each two of them.
pub fn join(parts: &Vec<String>, separator: &str) -> (text: String)
    ensures
        text@ == joined(parts.deep_view(), separator@),
{
    let ghost views = parts.deep_view();
    let mut text = String::new();
    let mut i: usize = 0;
    while i < parts.len()
        invariant
            i <= parts.len(),
            views == parts.deep_view(),
            text@ == joined(views.take(i as int), separator@),
        decreases parts.len() - i,
    {
        if i > 0 {
            text.append(separator);
        }
        text.append(parts[i].as_str());
        proof {
            let longer = views.take(i as int + 1);
            assert(longer.drop_last() =~= views.take(i as int));
            assert(longer.last() == parts[i as int]@);
            if i == 0 {
                assert(views.take(0) =~= Seq::empty());
                assert(text@ =~= longer[0]);
            }
        }
        i = i + 1;
    }
    assert(views.take(i as int) =~= views);
    text
}

fn chars_of(text: &str) -> (chars: Vec<char>)
    ensures
        chars@ == text@,
{
    let mut chars: Vec<char> = Vec::new();
    for c in iter: text.chars()
        invariant
            iter.seq() == text@,
            chars@ == text@.take(iter.index() as int),
    {
        assert(text@.take(iter.index() as int + 1) =~= text@.take(iter.index() as int).push(c));
        chars.push(c);
    }
    assert(text@.take(text@.len() as int) =~= text@);
    chars
}

fn matches_at(haystack: &Vec<char>, needle: &Vec<char>, at: usize) -> (found: bool)
    requires
        at + needle.len() <= haystack.len(),
    ensures
        found == stands_at(haystack@, needle@, at as int),
{
    let mut i: usize = 0;
    while i < needle.len()
        invariant
            i <= needle.len(),
            at + needle.len() <= haystack.len(),
            forall|j: int| 0 <= j < i ==> haystack@[at + j] == needle@[j],
        decreases needle.len() - i,
    {
        if haystack[at + i] != needle[i] {
            assert(haystack@.subrange(at as int, at + needle@.len())[i as int] != needle@[i as int]);
            return false;
        }
        i = i + 1;
    }
    assert(haystack@.subrange(at as int, at + needle@.len()) =~= needle@);
    true
}

/// Whether `needle` stands anywhere in `haystack`.
pub fn contains_text(haystack: &str, needle: &str) -> (found: bool)
    ensures
        found == occurs(haystack@, needle@),
{
    let hay = chars_of(haystack);
    let pin = chars_of(needle);
    if pin.len() > hay.len() {
        return false;
    }
    let last: usize = hay.len() - pin.len();
    let mut at: usize = 0;
    while at < last
        invariant
            hay@ == haystack@,
            pin@ == needle@,
            last + pin.len() == hay.len(),
            at <= last,
            forall|i: int| 0 <= i < at ==> !stands_at(haystack@, needle@, i),
        decreases last - at,
    {
        if matches_at(&hay, &pin, at) {
            return true;
        }
        at = at + 1;
    }
    matches_at(&hay, &pin, last)
}

/// Whether `haystack` ends in `needle`.
pub fn ends_with_text(haystack: &str, needle: &str) -> (found: bool)
    ensures
        found == ends_in(haystack@, needle@),
{
    let hay = chars_of(haystack);
    let pin = chars_of(needle);
    if pin.len() > hay.len() {
        false
    } else {
        matches_at(&hay, &pin, hay.len() - pin.len())
    }
}

/// The number that a numeral stands for.
pub open spec fn numeral_value(text: Seq<char>, base: nat) -> int
    decreases text.len(),
{
    if text.len() == 0 {
        0
    } else {
        numeral_value(text.drop_last(), base) * base + (text.last() as int - '0' as int)
    }
}

/// A numeral stands for the number that it was written for, and starts with a zero only if that
/// is zero.
pub proof fn lemma_numeral_is_read_back(n: nat, base: nat)
    requires
        2 <= base <= 10,
    ensures
        numeral_value(numeral(n, base), base) == n,
        numeral(n, base).len() > 0,
        numeral(n, base)[0] == '0' ==> n == 0,
        forall|i: int|
            0 <= i < numeral(n, base).len() ==> '0' <= #[trigger] numeral(n, base)[i] <= '9',
    decreases n,
{
    if n < base {
        let text = seq![digit(n as int)];
        assert(text.drop_last() =~= Seq::<char>::empty());
        assert(numeral_value(text.drop_last(), base) == 0);
        assert(0 * base == 0);
    } else {
        assert(n / base < n && n / base > 0) by (nonlinear_arith)
            requires
                base >= 2,
                n >= base,
        ;
        lemma_numeral_is_read_back(n / base, base);
        let high = numeral(n / base, base);
        let d = (n % base) as int;
        vstd::arithmetic::div_mod::lemma_mod_bound(n as int, base as int);
        vstd::arithmetic::div_mod::lemma_fundamental_div_mod(n as int, base as int);
        assert(high.push(digit(d)).drop_last() =~= high);
        assert((n / base) * base + n % base == n) by (nonlinear_arith)
            requires
                n == base * (n / base) + n % base,
        ;
    }
}

/// Two integers that are written alike in decimal are the same.
pub proof fn lemma_decimal_is_injective(a: int, b: int)
    requires
        decimal(a) == decimal(b),
    ensures
        a == b,
{
    let size_a = if a < 0 {
        (-a) as nat
    } else {
        a as nat
    };
    let size_b = if b < 0 {
        (-b) as nat
    } else {
        b as nat
    };
    lemma_numeral_is_read_back(size_a, 10);
    lemma_numeral_is_read_back(size_b, 10);
    if a < 0 {
        assert(decimal(a)[0] == '-');
        assert(decimal(a).skip(1) =~= numeral(size_a, 10));
    } else {
        assert(decimal(a)[0] != '-');
    }
    if b < 0 {
        assert(decimal(b)[0] == '-');
        assert(decimal(b).skip(1) =~= numeral(size_b, 10));
    } else {
        assert(decimal(b)[0] != '-');
    }
}

/// A numeral is a single digit below its base, and otherwise the numeral of the quotient by the base
/// with one more digit, whose distance from the zero digit is the remainder.
pub proof fn lemma_numeral_grows_by_a_digit(n: nat, base: nat, d: nat)
    requires
        2 <= base <= 10,
        d < base,
    ensures
        numeral(d, base).len() == 1,
        numeral(d, base)[0] as int == '0' as int + d,
        n > 0 ==> {
            let longer = numeral((n * base + d) as nat, base);
            &&& longer.drop_last() == numeral(n, base)
            &&& longer.last() as int == '0' as int + d
        },
{
    if n > 0 {
        let m = (n * base + d) as nat;
        assert(m >= base) by (nonlinear_arith)
            requires
                m == n * base + d,
                n > 0,
        ;
        vstd::arithmetic::div_mod::lemma_fundamental_div_mod_converse(
            m as int,
            base as int,
            n as int,
            d as int,
        );
        assert(numeral(m, base).drop_last() =~= numeral(n, base));
    }
}

/// The decimal numeral of a negative integer is that of its opposite behind a sign, and that of any
/// other has no sign and reads back as the integer.
pub proof fn lemma_decimal_is_signed(n: int)
    ensures
        n > 0 ==> decimal(-n).len() == decimal(n).len() + 1 && decimal(-n)[0] == '-' && decimal(
            -n,
        ).skip(1) == decimal(n),
        n >= 0 ==> numeral_value(decimal(n), 10) == n && forall|i: int|
            0 <= i < decimal(n).len() ==> '0' <= #[trigger] decimal(n)[i] <= '9',
{
    if n > 0 {
        assert(decimal(-n).skip(1) =~= decimal(n));
    }
    if n >= 0 {
        lemma_numeral_is_read_back(n as nat, 10);
    }
}

/// The octal numeral of a number reads back as the number, and has octal digits only.
pub proof fn lemma_octal_is_read_back(n: nat)
    ensures
        numeral_value(octal(n), 8) == n,
        forall|i: int| 0 <= i < octal(n).len() ==> '0' <= #[trigger] octal(n)[i] <= '7',
    decreases n,
{
    lemma_numeral_is_read_back(n, 8);
    if n >= 8 {
        lemma_octal_is_read_back(n / 8);
        let high = octal(n / 8);
        assert(octal(n) == high.push(digit((n % 8) as int)));
        assert forall|i: int| 0 <= i < octal(n).len() implies '0' <= #[trigger] octal(n)[i]
            <= '7' by {
            if i < high.len() {
                assert(octal(n)[i] == high[i]);
            }
        }
    }
}

/// A list of no parts is empty, one of one part is that part, and one more part comes behind a
/// separator; wherever a list is cut in two, the separator stands between the halves.
pub proof fn lemma_list_is_joined_at_every_part(
    front: Seq<Seq<char>>,
    back: Seq<Seq<char>>,
    separator: Seq<char>,
)
    ensures
        front.len() == 0 ==> joined(front, separator).len() == 0,
        front.len() == 1 ==> joined(front, separator) == front[0],
        front.len() > 0 && back.len() > 0 ==> joined(front + back, separator) == joined(
            front,
            separator,
        ) + separator + joined(back, separator),
    decreases back.len(),
{
    if front.len() > 0 && back.len() > 0 {
        let all = front + back;
        assert(all.drop_last() =~= front + back.drop_last());
        assert(all.last() == back.last());
        if back.len() == 1 {
            assert(all.drop_last() =~= front);
        } else {
            lemma_list_is_joined_at_every_part(front, back.drop_last(), separator);
            assert(joined(all, separator) =~= joined(front, separator) + separator + joined(
                back,
                separator,
            ));
        }
    }
}

/// A text stands in another exactly if, from some position on, the other has its characters one by
/// one; and it stands at the end exactly if that position is the last that leaves room for it.
pub proof fn lemma_search_is_character_by_character(
    haystack: Seq<char>,
    needle: Seq<char>,
    at: int,
)
    ensures
        0 <= at <= haystack.len() - needle.len() && (forall|i: int|
            0 <= i < needle.len() ==> haystack[at + i] == needle[i]) ==> occurs(haystack, needle),
        occurs(haystack, needle) ==> exists|from: int|
            0 <= from <= haystack.len() - needle.len() && #[trigger] haystack.subrange(
                from,
                from + needle.len(),
            ) == needle,
        ends_in(haystack, needle) <==> needle.len() <= haystack.len() && forall|i: int|
            0 <= i < needle.len() ==> haystack[haystack.len() - needle.len() + i]
                == #[trigger] needle[i],
{
    if 0 <= at <= haystack.len() - needle.len() && (forall|i: int|
        0 <= i < needle.len() ==> haystack[at + i] == needle[i]) {
        assert(haystack.subrange(at, at + needle.len()) =~= needle);
        assert(stands_at(haystack, needle, at));
    }
    if occurs(haystack, needle) {
        let from = choose|from: int| stands_at(haystack, needle, from);
        assert(haystack.subrange(from, from + needle.len()) == needle);
    }
    let end = haystack.len() - needle.len();
    if needle.len() <= haystack.len() {
        let tail = haystack.subrange(end, end + needle.len());
        if ends_in(haystack, needle) {
            assert forall|i: int| 0 <= i < needle.len() implies haystack[end + i]
                == #[trigger] needle[i] by {
                assert(tail[i] == haystack[end + i]);
            }
        }
        if forall|i: int| 0 <= i < needle.len() ==> haystack[end + i] == #[trigger] needle[i] {
            assert(tail =~= needle);
        }
    }
}

} // verus!
