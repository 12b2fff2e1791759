//! The set of channel and category identifiers exempt from logging, read
//! once from a comma-separated configuration value.

use vstd::prelude::*;
use vstd::string::*;
use crate::text::{is_white_space, white_space};

verus! {

/// `s` without its leading white space.
pub open spec fn trim_start(s: Seq<char>) -> Seq<char>
    decreases s.len(),
{
    if s.len() > 0 && is_white_space(s[0]) {
        trim_start(s.drop_first())
    } else {
        s
    }
}

/// `s` without its trailing white space.
pub open spec fn trim_end(s: Seq<char>) -> Seq<char>
    decreases s.len(),
{
    if s.len() > 0 && is_white_space(s.last()) {
        trim_end(s.drop_last())
    } else {
        s
    }
}

/// `s` without white space at either end.
pub open spec fn trimmed(s: Seq<char>) -> Seq<char> {
    trim_end(trim_start(s))
}

pub open spec fn is_digit(c: char) -> bool {
    '0' <= c && c <= '9'
}

/// The value of a decimal digit (zero for any other character).
pub open spec fn digit_value(c: char) -> nat {
    if is_digit(c) {
        (c as u32 - '0' as u32) as nat
    } else {
        0
    }
}

/// The value of a string of decimal digits, most significant first.
pub open spec fn digits_value(d: Seq<char>) -> nat
    decreases d.len(),
{
    if d.len() == 0 {
        0
    } else {
        digits_value(d.drop_last()) * 10 + digit_value(d.last())
    }
}

/// The digits of an unsigned number's text: one leading `+` is allowed.
pub open spec fn unsigned_digits(t: Seq<char>) -> Seq<char> {
    if t.len() > 0 && t[0] == '+' {
        t.drop_first()
    } else {
        t
    }
}

/// The value of an unsigned number's text: an optional `+` and one or more
/// decimal digits whose value fits in 64 bits.
pub open spec fn unsigned_value(t: Seq<char>) -> Option<u64> {
    let d = unsigned_digits(t);
    if d.len() > 0 && (forall|i: int| 0 <= i < d.len() ==> is_digit(#[trigger] d[i]))
        && digits_value(d) <= u64::MAX {
        Some(digits_value(d) as u64)
    } else {
        None
    }
}

/// The identifier that one configuration segment names: its text once
/// trimmed of white space.
pub open spec fn parse_id(seg: Seq<char>) -> Option<u64> {
    unsigned_value(trimmed(seg))
}

/// The segments of `s` between commas, in order; a string without commas
/// is one segment, and the empty string is one empty segment.
pub open spec fn split_commas(s: Seq<char>) -> Seq<Seq<char>>
    decreases s.len(),
{
    if s.len() == 0 {
        seq![Seq::empty()]
    } else {
        let init = split_commas(s.drop_last());
        if s.last() == ',' {
            init.push(Seq::empty())
        } else {
            init.update(init.len() - 1, init.last().push(s.last()))
        }
    }
}

/// Each digit appended to a string of digits can only raise its value.
pub proof fn lemma_digits_value_prefix(d: Seq<char>, k: int)
    requires
        0 <= k <= d.len(),
    ensures
        digits_value(d.take(k)) <= digits_value(d),
    decreases d.len() - k,
{
    if k < d.len() {
        lemma_digits_value_prefix(d, k + 1);
        assert(d.take(k + 1).drop_last() =~= d.take(k));
    } else {
        assert(d.take(k) =~= d);
    }
}

fn white_space_at(seg: &Vec<char>, i: usize) -> (r: bool)
    ensures
        r == (i < seg@.len() && is_white_space(seg@[i as int])),
{
    i < seg.len() && white_space(seg[i])
}

/// Reads the characters of `seg` from `i` up to `j` as an unsigned number.
pub fn parse_range(seg: &Vec<char>, i: usize, j: usize) -> (r: Option<u64>)
    requires
        i <= j <= seg@.len(),
    ensures
        r == unsigned_value(seg@.subrange(i as int, j as int)),
{
    let mut k: usize = i;
    if k < j && seg[k] == '+' {
        k += 1;
    }
    let ghost d = seg@.subrange(k as int, j as int);
    assert(unsigned_digits(seg@.subrange(i as int, j as int)) =~= d);
    if k == j {
        return None;
    }
    let mut acc: u64 = 0;
    let mut m: usize = k;
    while m < j
        invariant
            i <= k <= m <= j <= seg@.len(),
            d == seg@.subrange(k as int, j as int),
            d == unsigned_digits(seg@.subrange(i as int, j as int)),
            acc == digits_value(d.take(m - k)),
            forall|x: int| 0 <= x < m - k ==> is_digit(#[trigger] d[x]),
        decreases j - m,
    {
        let c = seg[m];
        assert(c == d[m - k]);
        if !(c >= '0' && c <= '9') {
            assert(!is_digit(d[m - k]));
            return None;
        }
        let v: u64 = (c as u32 - '0' as u32) as u64;
        assert(d.take(m - k + 1).drop_last() =~= d.take(m - k));
        assert(d.take(m - k + 1).last() == c);
        assert(digit_value(c) == v);
        assert(digits_value(d.take(m - k + 1)) == acc * 10 + v);
        if acc > (u64::MAX - v) / 10 {
            proof {
                assert(acc * 10 + v > u64::MAX) by (nonlinear_arith)
                    requires
                        acc > (u64::MAX - v) / 10,
                        v <= 9,
                ;
                lemma_digits_value_prefix(d, m - k + 1);
            }
            return None;
        }
        assert(acc * 10 + v <= u64::MAX) by (nonlinear_arith)
            requires
                acc <= (u64::MAX - v) / 10,
                v <= 9,
        ;
        acc = acc * 10 + v;
        m += 1;
    }
    assert(d.take(j - k) =~= d);
    Some(acc)
}

/// Reads one configuration segment as an identifier.
pub fn parse_segment(seg: &Vec<char>) -> (r: Option<u64>)
    ensures
        r == parse_id(seg@),
{
    let n = seg.len();
    let mut i: usize = 0;
    assert(seg@.subrange(0, n as int) =~= seg@);
    while white_space_at(seg, i)
        invariant
            i <= n,
            n == seg@.len(),
            trim_start(seg@) == trim_start(seg@.subrange(i as int, n as int)),
        decreases n - i,
    {
        assert(seg@.subrange(i as int, n as int).drop_first() =~= seg@.subrange(i + 1, n as int));
        i += 1;
    }
    assert(trim_start(seg@) == seg@.subrange(i as int, n as int));
    let mut j: usize = n;
    while j > i && white_space_at(seg, j - 1)
        invariant
            i <= j <= n,
            n == seg@.len(),
            trimmed(seg@) == trim_end(seg@.subrange(i as int, j as int)),
        decreases j,
    {
        assert(seg@.subrange(i as int, j as int).drop_last() =~= seg@.subrange(
            i as int,
            j - 1,
        ));
        j -= 1;
    }
    assert(trimmed(seg@) == seg@.subrange(i as int, j as int));
    parse_range(seg, i, j)
}

/// The characters of `text`, in order.
pub fn chars_of(text: &str) -> (r: Vec<char>)
    ensures
        r@ == text@,
{
    let n = text.unicode_len();
    let mut v: Vec<char> = Vec::new();
    let mut i: usize = 0;
    while i < n
        invariant
            i <= n,
            n == text@.len(),
            v@ == text@.take(i as int),
        decreases n - i,
    {
        v.push(text.get_char(i));
        i += 1;
        assert(v@ =~= text@.take(i as int));
    }
    assert(text@.take(n as int) =~= text@);
    v
}

/// Reads `text` as an unsigned 64-bit integer, with no white space allowed.
pub fn parse_unsigned(text: &str) -> (r: Option<u64>)
    ensures
        r == unsigned_value(text@),
{
    let v = chars_of(text);
    assert(v@.subrange(0, v@.len() as int) =~= v@);
    parse_range(&v, 0, v.len())
}

/// Whether every segment of a configuration value names an identifier.
pub open spec fn all_segments_valid(segs: Seq<Seq<char>>) -> bool {
    forall|k: int| 0 <= k < segs.len() ==> (#[trigger] parse_id(segs[k])) is Some
}

/// Segment `j` is the first one that names no identifier.
pub open spec fn first_invalid_segment(segs: Seq<Seq<char>>, j: int) -> bool {
    0 <= j < segs.len() && parse_id(segs[j]) is None && forall|k: int|
        0 <= k < j ==> (#[trigger] parse_id(segs[k])) is Some
}

/// The identifiers that the segments name, in order.
pub open spec fn segment_ids(segs: Seq<Seq<char>>) -> Seq<u64> {
    segs.map_values(|g: Seq<char>| parse_id(g).unwrap())
}

/// The identifiers of a well-formed configuration value.
pub open spec fn config_ids(config: Seq<char>) -> Seq<u64> {
    segment_ids(split_commas(config))
}

/// Why a configuration value was refused.
#[derive(Clone, Copy, Debug, PartialEq, Eq)]
pub enum ConfigError {
    /// The segment at this position (counted from zero) is not an unsigned
    /// 64-bit integer.
    InvalidId { segment: usize },
}

/// The identifiers of channels and categories whose messages are not
/// logged. It is built once and only read afterwards.
#[derive(Clone, Debug)]
pub struct Blacklist {
    ids: Vec<u64>,
}

impl View for Blacklist {
    type V = Seq<u64>;

    closed spec fn view(&self) -> Seq<u64> {
        self.ids@
    }
}

impl Blacklist {
    /// The blacklist that holds nothing.
    pub fn empty() -> (r: Blacklist)
        ensures
            r@ == Seq::<u64>::empty(),
    {
        Blacklist { ids: Vec::new() }
    }

    /// The blacklist of the given identifiers.
    pub fn from_ids(ids: Vec<u64>) -> (r: Blacklist)
        ensures
            r@ == ids@,
    {
        Blacklist { ids }
    }

    /// Reads a comma-separated list of identifiers; each segment is trimmed
    /// of white space. One segment that is not an identifier refuses the
    /// whole list.
    pub fn parse(config: &str) -> (r: Result<Blacklist, ConfigError>)
        ensures
            match r {
                Ok(b) => all_segments_valid(split_commas(config@)) && b@ == config_ids(config@),
                Err(ConfigError::InvalidId { segment }) => first_invalid_segment(
                    split_commas(config@),
                    segment as int,
                ),
            },
    {
        let n = config.unicode_len();
        let mut ids: Vec<u64> = Vec::new();
        let mut cur: Vec<char> = Vec::new();
        let mut first_bad: Option<usize> = None;
        let mut done: usize = 0;
        let mut i: usize = 0;
        assert(config@.take(0) =~= Seq::<char>::empty());
        while i < n
            invariant
                i <= n,
                n == config@.len(),
                done <= i,
                split_commas(config@.take(i as int)).len() == done + 1,
                split_commas(config@.take(i as int))[done as int] == cur@,
                first_bad is None ==> ids@ == segment_ids(
                    split_commas(config@.take(i as int)).take(done as int),
                ) && forall|k: int|
                    0 <= k < done ==> (#[trigger] parse_id(
                        split_commas(config@.take(i as int))[k],
                    )) is Some,
                first_bad matches Some(j) ==> j < done && first_invalid_segment(
                    split_commas(config@.take(i as int)),
                    j as int,
                ),
            decreases n - i,
        {
            let ghost sp = split_commas(config@.take(i as int));
            let c = config.get_char(i);
            assert(config@.take(i + 1).drop_last() =~= config@.take(i as int));
            assert(config@.take(i + 1).last() == c);
            if c == ',' {
                if first_bad.is_none() {
                    match parse_segment(&cur) {
                        Some(v) => {
                            ids.push(v);
                        },
                        None => {
                            first_bad = Some(done);
                        },
                    }
                }
                done += 1;
                cur = Vec::new();
                proof {
                    let sp2 = split_commas(config@.take(i + 1));
                    assert(sp2 == sp.push(Seq::empty()));
                    assert(sp2.take(done as int) =~= sp);
                    assert(sp.take(done - 1) =~= sp.drop_last());
                    assert(segment_ids(sp2.take(done as int)) =~= segment_ids(
                        sp.take(done - 1),
                    ).push(parse_id(sp[done - 1]).unwrap()));
                    assert(cur@ =~= Seq::<char>::empty());
                }
            } else {
                cur.push(c);
                proof {
                    let sp2 = split_commas(config@.take(i + 1));
                    assert(sp2 == sp.update(done as int, sp[done as int].push(c)));
                    assert(sp2.take(done as int) =~= sp.take(done as int));
                }
            }
            i += 1;
        }
        assert(config@.take(n as int) =~= config@);
        let ghost sp = split_commas(config@);
        if first_bad.is_none() {
            match parse_segment(&cur) {
                Some(v) => {
                    ids.push(v);
                },
                None => {
                    first_bad = Some(done);
                },
            }
        }
        match first_bad {
            Some(j) => Err(ConfigError::InvalidId { segment: j }),
            None => {
                proof {
                    assert(sp.take(done as int) =~= sp.drop_last());
                    assert(segment_ids(sp) =~= segment_ids(sp.take(done as int)).push(
                        parse_id(sp[done as int]).unwrap(),
                    ));
                }
                Ok(Blacklist { ids })
            },
        }
    }

    /// The blacklist for an optional configuration value: when the value is
    /// absent nothing is blacklisted.
    pub fn from_config(config: Option<&str>) -> (r: Result<Blacklist, ConfigError>)
        ensures
            config is None ==> (r matches Ok(b) && b@ == Seq::<u64>::empty()),
            config matches Some(c) ==> match r {
                Ok(b) => all_segments_valid(split_commas(c@)) && b@ == config_ids(c@),
                Err(ConfigError::InvalidId { segment }) => first_invalid_segment(
                    split_commas(c@),
                    segment as int,
                ),
            },
    {
        match config {
            Some(c) => Blacklist::parse(c),
            None => Ok(Blacklist::empty()),
        }
    }

    /// Whether `id` is blacklisted.
    pub fn contains(&self, id: u64) -> (r: bool)
        ensures
            r == self@.contains(id),
    {
        let mut i: usize = 0;
        while i < self.ids.len()
            invariant
                i <= self.ids@.len(),
                forall|k: int| 0 <= k < i ==> self.ids@[k] != id,
            decreases self.ids@.len() - i,
        {
            if self.ids[i] == id {
                return true;
            }
            i += 1;
        }
        false
    }
}

} // verus!
