//! Character-level primitives shared by the parsers: whitespace, decimal
//! integers, words of a line, and building strings out of characters.
use vstd::prelude::*;

verus! {

/// The Unicode `White_Space` characters, as `char::is_whitespace` accepts them.
pub open spec fn is_space(c: char) -> bool {
    let u = c as u32;
    ||| 0x09 <= u <= 0x0D
    ||| u == 0x20
    ||| u == 0x85
    ||| u == 0xA0
    ||| u == 0x1680
    ||| 0x2000 <= u <= 0x200A
    ||| u == 0x2028
    ||| u == 0x2029
    ||| u == 0x202F
    ||| u == 0x205F
    ||| u == 0x3000
}

pub open spec fn is_digit(c: char) -> bool {
    0x30 <= (c as u32) <= 0x39
}

pub open spec fn digit_value(c: char) -> nat {
    ((c as u32) - 0x30) as nat
}

pub open spec fn all_digits(s: Seq<char>) -> bool {
    forall|i: int| 0 <= i < s.len() ==> is_digit(#[trigger] s[i])
}

/// The value of a run of decimal digits, most significant first.
pub open spec fn decimal_value(s: Seq<char>) -> nat
    decreases s.len(),
{
    if s.len() == 0 {
        0
    } else {
        decimal_value(s.drop_last()) * 10 + digit_value(s.last())
    }
}

/// What `str::parse::<u16>` accepts: an optional `+`, then at least one ASCII
/// digit, with a value that fits in 16 bits.
pub open spec fn parse_u16(s: Seq<char>) -> Option<u16> {
    let d = if s.len() > 0 && s[0] == '+' {
        s.drop_first()
    } else {
        s
    };
    if d.len() > 0 && all_digits(d) && decimal_value(d) <= u16::MAX {
        Some(decimal_value(d) as u16)
    } else {
        None
    }
}

/// What `str::parse::<i32>` accepts: an optional sign, then at least one ASCII
/// digit, with a value that fits in 32 signed bits.
pub open spec fn parse_i32(s: Seq<char>) -> Option<i32> {
    let negative = s.len() > 0 && s[0] == '-';
    let d = if s.len() > 0 && (s[0] == '-' || s[0] == '+') {
        s.drop_first()
    } else {
        s
    };
    let v: int = if negative {
        -(decimal_value(d) as int)
    } else {
        decimal_value(d) as int
    };
    if d.len() > 0 && all_digits(d) && i32::MIN <= v <= i32::MAX {
        Some(v as i32)
    } else {
        None
    }
}

pub open spec fn digit_char(d: nat) -> char {
    ((d + 0x30) as u8) as char
}

/// The decimal representation of `n`, without leading zeros.
pub open spec fn decimal_digits(n: nat) -> Seq<char>
    decreases n,
{
    if n < 10 {
        seq![digit_char(n)]
    } else {
        decimal_digits(n / 10).push(digit_char(n % 10))
    }
}

/// The maximal runs of non-whitespace characters of `s`, left to right, as
/// `str::split_whitespace` yields them.
pub open spec fn words(s: Seq<char>) -> Seq<Seq<char>>
    decreases s.len(),
{
    if s.len() == 0 {
        Seq::empty()
    } else {
        let before = words(s.drop_last());
        let c = s.last();
        if is_space(c) {
            before
        } else if s.len() >= 2 && !is_space(s[s.len() - 2]) && before.len() > 0 {
            before.drop_last().push(before.last().push(c))
        } else {
            before.push(seq![c])
        }
    }
}

/// The characters after the last `:` of `s`, or all of `s` when it has none:
/// the last piece that `split(':')` yields.
pub open spec fn after_last_colon(s: Seq<char>) -> Seq<char>
    decreases s.len(),
{
    if s.len() == 0 {
        Seq::empty()
    } else if s.last() == ':' {
        Seq::empty()
    } else {
        after_last_colon(s.drop_last()).push(s.last())
    }
}

pub fn char_is_space(c: char) -> (r: bool)
    ensures
        r == is_space(c),
{
    let u = c as u32;
    (0x09 <= u && u <= 0x0D) || u == 0x20 || u == 0x85 || u == 0xA0 || u == 0x1680 || (0x2000
        <= u && u <= 0x200A) || u == 0x2028 || u == 0x2029 || u == 0x202F || u == 0x205F || u
        == 0x3000
}

/// Relies on `String::push`: the character is appended at the end.
#[verifier::external_body]
pub(crate) fn push_char(s: &mut String, c: char)
    ensures
        final(s)@ == old(s)@.push(c),
{
    s.push(c)
}

/// The characters of `text`, one element each.
pub fn chars_of(text: &str) -> (r: Vec<char>)
    ensures
        r@ == text@,
{
    let mut v: Vec<char> = Vec::new();
    for c in it: text.chars()
        invariant
            v@ == it.seq().take(it.index() as int),
    {
        v.push(c);
    }
    v
}

pub open spec fn capped(v: nat, cap: nat) -> nat {
    if v < cap {
        v
    } else {
        cap
    }
}

/// The value of the digits `chars[start..end]`, capped at `cap`; `None` when
/// one of those characters is not an ASCII digit.
fn capped_decimal(chars: &Vec<char>, start: usize, end: usize, cap: u64) -> (r: Option<u64>)
    requires
        start <= end <= chars.len(),
        cap <= 0x1_0000_0000,
    ensures
        r is None <==> !all_digits(chars@.subrange(start as int, end as int)),
        r matches Some(v) ==> v == capped(
            decimal_value(chars@.subrange(start as int, end as int)),
            cap as nat,
        ),
{
    let mut acc: u64 = 0;
    let mut i: usize = start;
    while i < end
        invariant
            start <= i <= end <= chars.len(),
            cap <= 0x1_0000_0000,
            all_digits(chars@.subrange(start as int, i as int)),
            acc == capped(decimal_value(chars@.subrange(start as int, i as int)), cap as nat),
        decreases end - i,
    {
        let u = chars[i] as u32;
        if u < 0x30 || u > 0x39 {
            assert(!is_digit(chars@.subrange(start as int, end as int)[i - start]));
            return None;
        }
        let ghost prev = chars@.subrange(start as int, i as int);
        let ghost next = chars@.subrange(start as int, i + 1);
        assert(next.drop_last() =~= prev);
        assert(next.last() == chars@[i as int]);
        let d = (u - 0x30) as u64;
        acc = acc * 10 + d;
        if acc > cap {
            acc = cap;
        }
        i = i + 1;
    }
    Some(acc)
}

/// `str::parse::<u16>` on the characters `chars[start..end]`.
pub fn parse_u16_in(chars: &Vec<char>, start: usize, end: usize) -> (r: Option<u16>)
    requires
        start <= end <= chars.len(),
    ensures
        r == parse_u16(chars@.subrange(start as int, end as int)),
{
    let ghost s = chars@.subrange(start as int, end as int);
    let mut from = start;
    if start < end && chars[start] == '+' {
        from = start + 1;
        assert(s.drop_first() =~= chars@.subrange(from as int, end as int));
    } else {
        assert(s =~= chars@.subrange(from as int, end as int));
    }
    if from == end {
        return None;
    }
    match capped_decimal(chars, from, end, 0x10000) {
        None => None,
        Some(v) => {
            if v <= 0xFFFF {
                Some(v as u16)
            } else {
                None
            }
        },
    }
}

/// `str::parse::<i32>` on the characters `chars[start..end]`.
pub fn parse_i32_in(chars: &Vec<char>, start: usize, end: usize) -> (r: Option<i32>)
    requires
        start <= end <= chars.len(),
    ensures
        r == parse_i32(chars@.subrange(start as int, end as int)),
{
    let ghost s = chars@.subrange(start as int, end as int);
    let mut from = start;
    let negative = start < end && chars[start] == '-';
    if start < end && (chars[start] == '-' || chars[start] == '+') {
        from = start + 1;
        assert(s.drop_first() =~= chars@.subrange(from as int, end as int));
    } else {
        assert(s =~= chars@.subrange(from as int, end as int));
    }
    if from == end {
        return None;
    }
    match capped_decimal(chars, from, end, 0x8000_0001) {
        None => None,
        Some(v) => {
            if negative {
                if v <= 0x8000_0000 {
                    Some((0 - (v as i64)) as i32)
                } else {
                    None
                }
            } else {
                if v <= 0x7FFF_FFFF {
                    Some(v as i32)
                } else {
                    None
                }
            }
        },
    }
}

/// `spans` locate, inside `chars`, exactly the words `ws`, each span within
/// `lo..hi`.
pub open spec fn spans_locate(
    chars: Seq<char>,
    spans: Seq<(usize, usize)>,
    ws: Seq<Seq<char>>,
    lo: int,
    hi: int,
) -> bool {
    &&& spans.len() == ws.len()
    &&& forall|k: int|
        #![trigger spans[k]]
        0 <= k < spans.len() ==> {
            &&& lo <= spans[k].0 <= spans[k].1 <= hi
            &&& chars.subrange(spans[k].0 as int, spans[k].1 as int) == ws[k]
        }
}

/// The words of the line `chars[start..end]`, as index ranges into `chars`.
pub fn word_spans(chars: &Vec<char>, start: usize, end: usize) -> (r: Vec<(usize, usize)>)
    requires
        start <= end <= chars.len(),
    ensures
        spans_locate(
            chars@,
            r@,
            words(chars@.subrange(start as int, end as int)),
            start as int,
            end as int,
        ),
{
    let mut spans: Vec<(usize, usize)> = Vec::new();
    let mut i: usize = start;
    while i < end
        invariant
            start <= i <= end <= chars.len(),
            spans_locate(
                chars@,
                spans@,
                words(chars@.subrange(start as int, i as int)),
                start as int,
                i as int,
            ),
            i > start && !is_space(chars@[i - 1]) ==> spans.len() > 0 && spans@.last().1 == i,
        decreases end - i,
    {
        let ghost before = words(chars@.subrange(start as int, i as int));
        let ghost line = chars@.subrange(start as int, i + 1);
        assert(line.drop_last() =~= chars@.subrange(start as int, i as int));
        assert(line.last() == chars@[i as int]);
        let c = chars[i];
        if char_is_space(c) {
        } else if i > start && !char_is_space(chars[i - 1]) {
            assert(line[line.len() - 2] == chars@[i - 1]);
            let last = spans.len() - 1;
            let from = spans[last].0;
            assert(chars@.subrange(from as int, i + 1) =~= chars@.subrange(
                from as int,
                i as int,
            ).push(c));
            spans.set(last, (from, i + 1));
            assert(words(line) == before.drop_last().push(before.last().push(c)));
        } else {
            assert(chars@.subrange(i as int, i + 1) =~= seq![c]);
            spans.push((i, i + 1));
        }
        i = i + 1;
        proof {
            let now = words(chars@.subrange(start as int, i as int));
            assert forall|k: int| 0 <= k < spans@.len() implies {
                &&& start <= #[trigger] spans@[k].0 <= spans@[k].1 <= i
                &&& chars@.subrange(spans@[k].0 as int, spans@[k].1 as int) == now[k]
            } by {}
        }
    }
    spans
}

/// Where the part of `chars[start..end]` after its last `:` begins.
pub fn after_last_colon_from(chars: &Vec<char>, start: usize, end: usize) -> (r: usize)
    requires
        start <= end <= chars.len(),
    ensures
        start <= r <= end,
        chars@.subrange(r as int, end as int) == after_last_colon(
            chars@.subrange(start as int, end as int),
        ),
{
    let mut r: usize = start;
    let mut i: usize = start;
    while i < end
        invariant
            start <= r <= i <= end <= chars.len(),
            chars@.subrange(r as int, i as int) == after_last_colon(
                chars@.subrange(start as int, i as int),
            ),
        decreases end - i,
    {
        let ghost line = chars@.subrange(start as int, i + 1);
        assert(line.drop_last() =~= chars@.subrange(start as int, i as int));
        if chars[i] == ':' {
            r = i + 1;
            assert(chars@.subrange(r as int, i + 1) =~= Seq::<char>::empty());
        } else {
            assert(chars@.subrange(r as int, i + 1) =~= chars@.subrange(r as int, i as int).push(
                chars@[i as int],
            ));
        }
        i = i + 1;
    }
    r
}

/// A string holding the characters `chars[start..end]`.
pub fn string_of(chars: &Vec<char>, start: usize, end: usize) -> (r: String)
    requires
        start <= end <= chars.len(),
    ensures
        r@ == chars@.subrange(start as int, end as int),
{
    let mut s = String::new();
    let mut i: usize = start;
    while i < end
        invariant
            start <= i <= end <= chars.len(),
            s@ == chars@.subrange(start as int, i as int),
        decreases end - i,
    {
        push_char(&mut s, chars[i]);
        assert(s@ =~= chars@.subrange(start as int, i + 1));
        i = i + 1;
    }
    s
}

/// Appends the decimal representation of `n` to `s`.
pub fn push_decimal(s: &mut String, n: u16)
    ensures
        final(s)@ == old(s)@ + decimal_digits(n as nat),
    decreases n,
{
    if n >= 10 {
        push_decimal(s, n / 10);
    }
    let d = (n % 10) as u8;
    push_char(s, (d + 0x30) as char);
    assert(final(s)@ =~= old(s)@ + decimal_digits(n as nat));
}

} // verus!
