//! The channel specification grammar.
//!
//! A specification text is a sequence of records
//!
//! ```text
//! record := NAME "," SEMANTICS_TAG "," INTEGER ";"
//! ```
//!
//! separated by arbitrary whitespace. `NAME` is an identifier,
//! `SEMANTICS_TAG` is `mpsc` or `mpmc` (case-insensitively) and `INTEGER`
//! is a positive decimal capacity that fits in `usize`. Parsing either
//! yields one [`ChannelSpec`] per record, in source order, or fails with a
//! [`GrammarError`] naming the first offending position — there is no
//! partial parse.

use vstd::prelude::*;

use crate::naming::lower;
use crate::ChannelType;

verus! {

/// One declared channel: its base name, its delivery semantics and its
/// buffer capacity.
#[derive(Clone, Debug)]
pub struct ChannelSpec {
    pub name: String,
    pub channel_type: ChannelType,
    pub capacity: usize,
}

/// The mathematical content of a [`ChannelSpec`].
pub struct ChannelSpecView {
    pub name: Seq<char>,
    pub channel_type: ChannelType,
    pub capacity: int,
}

impl View for ChannelSpec {
    type V = ChannelSpecView;

    open spec fn view(&self) -> ChannelSpecView {
        ChannelSpecView {
            name: self.name@,
            channel_type: self.channel_type,
            capacity: self.capacity as int,
        }
    }
}

/// What went wrong at [`GrammarError::at`].
#[derive(Clone, Copy, PartialEq, Eq, Structural, Debug)]
pub enum GrammarErrorKind {
    /// The record does not start with an identifier.
    ExpectedName,
    /// A `,` separator is missing.
    ExpectedComma,
    /// The semantics tag is not an identifier.
    ExpectedChannelType,
    /// The semantics tag is an identifier other than `mpsc` or `mpmc`.
    UnknownChannelType,
    /// The capacity is not a decimal literal.
    ExpectedCapacity,
    /// The capacity is zero or does not fit in `usize`.
    InvalidCapacity,
    /// The closing `;` separator is missing.
    ExpectedSemicolon,
}

/// A malformed specification text: the kind of deviation and the character
/// position at which it was found.
#[derive(Clone, Copy, PartialEq, Eq, Structural, Debug)]
pub struct GrammarError {
    pub kind: GrammarErrorKind,
    pub at: usize,
}

pub open spec fn is_space(c: char) -> bool {
    c == ' ' || c == '\t' || c == '\n' || c == '\r'
}

pub open spec fn is_digit(c: char) -> bool {
    48 <= c as u32 && c as u32 <= 57
}

pub open spec fn is_ident_start(c: char) -> bool {
    (97 <= c as u32 && c as u32 <= 122) || (65 <= c as u32 && c as u32 <= 90) || c == '_'
}

pub open spec fn is_ident_continue(c: char) -> bool {
    is_ident_start(c) || is_digit(c)
}

/// The first position at or after `i` that does not hold whitespace.
pub open spec fn spec_skip_ws(s: Seq<char>, i: int) -> int
    decreases s.len() - i,
{
    if i < s.len() && is_space(s[i]) {
        spec_skip_ws(s, i + 1)
    } else {
        i
    }
}

/// The end of the identifier-character run starting at `i`.
pub open spec fn spec_ident_end(s: Seq<char>, i: int) -> int
    decreases s.len() - i,
{
    if i < s.len() && is_ident_continue(s[i]) {
        spec_ident_end(s, i + 1)
    } else {
        i
    }
}

/// The end of the digit run starting at `i`.
pub open spec fn spec_digits_end(s: Seq<char>, i: int) -> int
    decreases s.len() - i,
{
    if i < s.len() && is_digit(s[i]) {
        spec_digits_end(s, i + 1)
    } else {
        i
    }
}

/// The decimal value of the digit run `s[i..j]`.
pub open spec fn spec_digits_value(s: Seq<char>, i: int, j: int) -> int
    decreases j - i,
{
    if j <= i {
        0
    } else {
        spec_digits_value(s, i, j - 1) * 10 + (s[j - 1] as u32 - 48)
    }
}

/// The semantics a tag identifier declares, compared case-insensitively.
pub open spec fn spec_channel_type_of(tag: Seq<char>) -> Option<ChannelType> {
    if lower(tag) == seq!['m', 'p', 's', 'c'] {
        Some(ChannelType::Mpsc)
    } else if lower(tag) == seq!['m', 'p', 'm', 'c'] {
        Some(ChannelType::Mpmc)
    } else {
        None
    }
}

/// One record parsed from position `i`, which must hold its first
/// non-whitespace character: the resulting channel and the position just
/// past the closing `;`, or the first grammar deviation.
pub open spec fn spec_parse_record(s: Seq<char>, i: int) -> Result<
    (ChannelSpecView, int),
    GrammarError,
> {
    if !(i < s.len() && is_ident_start(s[i])) {
        Err(GrammarError { kind: GrammarErrorKind::ExpectedName, at: i as usize })
    } else {
        let ne = spec_ident_end(s, i + 1);
        let name = s.subrange(i, ne);
        let p1 = spec_skip_ws(s, ne);
        if !(p1 < s.len() && s[p1] == ',') {
            Err(GrammarError { kind: GrammarErrorKind::ExpectedComma, at: p1 as usize })
        } else {
            let p2 = spec_skip_ws(s, p1 + 1);
            if !(p2 < s.len() && is_ident_start(s[p2])) {
                Err(GrammarError { kind: GrammarErrorKind::ExpectedChannelType, at: p2 as usize })
            } else {
                let te = spec_ident_end(s, p2 + 1);
                match spec_channel_type_of(s.subrange(p2, te)) {
                    None => Err(
                        GrammarError { kind: GrammarErrorKind::UnknownChannelType, at: p2 as usize },
                    ),
                    Some(ct) => {
                        let p3 = spec_skip_ws(s, te);
                        if !(p3 < s.len() && s[p3] == ',') {
                            Err(GrammarError { kind: GrammarErrorKind::ExpectedComma, at: p3 as usize })
                        } else {
                            let p4 = spec_skip_ws(s, p3 + 1);
                            if !(p4 < s.len() && is_digit(s[p4])) {
                                Err(
                                    GrammarError {
                                        kind: GrammarErrorKind::ExpectedCapacity,
                                        at: p4 as usize,
                                    },
                                )
                            } else {
                                let de = spec_digits_end(s, p4 + 1);
                                let v = spec_digits_value(s, p4, de);
                                if v < 1 || v > usize::MAX {
                                    Err(
                                        GrammarError {
                                            kind: GrammarErrorKind::InvalidCapacity,
                                            at: p4 as usize,
                                        },
                                    )
                                } else {
                                    let p5 = spec_skip_ws(s, de);
                                    if !(p5 < s.len() && s[p5] == ';') {
                                        Err(
                                            GrammarError {
                                                kind: GrammarErrorKind::ExpectedSemicolon,
                                                at: p5 as usize,
                                            },
                                        )
                                    } else {
                                        Ok(
                                            (
                                                ChannelSpecView {
                                                    name: name,
                                                    channel_type: ct,
                                                    capacity: v,
                                                },
                                                p5 + 1,
                                            ),
                                        )
                                    }
                                }
                            }
                        }
                    },
                }
            }
        }
    }
}

pub proof fn lemma_skip_ws_bounds(s: Seq<char>, i: int)
    ensures
        i <= spec_skip_ws(s, i),
        i <= s.len() ==> spec_skip_ws(s, i) <= s.len(),
    decreases s.len() - i,
{
    if i < s.len() && is_space(s[i]) {
        lemma_skip_ws_bounds(s, i + 1);
    }
}

pub proof fn lemma_ident_end_bounds(s: Seq<char>, i: int)
    ensures
        i <= spec_ident_end(s, i),
        i <= s.len() ==> spec_ident_end(s, i) <= s.len(),
    decreases s.len() - i,
{
    if i < s.len() && is_ident_continue(s[i]) {
        lemma_ident_end_bounds(s, i + 1);
    }
}

pub proof fn lemma_digits_end_bounds(s: Seq<char>, i: int)
    ensures
        i <= spec_digits_end(s, i),
        i <= s.len() ==> spec_digits_end(s, i) <= s.len(),
    decreases s.len() - i,
{
    if i < s.len() && is_digit(s[i]) {
        lemma_digits_end_bounds(s, i + 1);
    }
}

/// A successfully parsed record ends strictly past its first character
/// and within the text.
pub proof fn lemma_parse_record_advances(s: Seq<char>, i: int)
    requires
        i < s.len(),
    ensures
        spec_parse_record(s, i) matches Ok((rec, k)) ==> i < k <= s.len(),
{
    if i < s.len() && is_ident_start(s[i]) {
        let ne = spec_ident_end(s, i + 1);
        lemma_ident_end_bounds(s, i + 1);
        let p1 = spec_skip_ws(s, ne);
        lemma_skip_ws_bounds(s, ne);
        if p1 < s.len() && s[p1] == ',' {
            let p2 = spec_skip_ws(s, p1 + 1);
            lemma_skip_ws_bounds(s, p1 + 1);
            if p2 < s.len() && is_ident_start(s[p2]) {
                let te = spec_ident_end(s, p2 + 1);
                lemma_ident_end_bounds(s, p2 + 1);
                let p3 = spec_skip_ws(s, te);
                lemma_skip_ws_bounds(s, te);
                if p3 < s.len() && s[p3] == ',' {
                    let p4 = spec_skip_ws(s, p3 + 1);
                    lemma_skip_ws_bounds(s, p3 + 1);
                    if p4 < s.len() && is_digit(s[p4]) {
                        let de = spec_digits_end(s, p4 + 1);
                        lemma_digits_end_bounds(s, p4 + 1);
                        let p5 = spec_skip_ws(s, de);
                        lemma_skip_ws_bounds(s, de);
                    }
                }
            }
        }
    }
}

/// The records parsed from position `i` to the end of the text.
pub open spec fn spec_parse_from(s: Seq<char>, i: int) -> Result<
    Seq<ChannelSpecView>,
    GrammarError,
>
    decreases s.len() - i,
    via spec_parse_from_decreases
{
    let j = spec_skip_ws(s, i);
    if j >= s.len() {
        Ok(Seq::empty())
    } else {
        match spec_parse_record(s, j) {
            Err(e) => Err(e),
            Ok((rec, k)) => match spec_parse_from(s, k) {
                Err(e) => Err(e),
                Ok(rest) => Ok(seq![rec] + rest),
            },
        }
    }
}

#[via_fn]
proof fn spec_parse_from_decreases(s: Seq<char>, i: int) {
    let j = spec_skip_ws(s, i);
    lemma_skip_ws_bounds(s, i);
    if j < s.len() {
        lemma_parse_record_advances(s, j);
    }
}

/// The meaning of a whole specification text: one channel per record in
/// source order, or the first grammar deviation.
pub open spec fn spec_parse_channels(s: Seq<char>) -> Result<Seq<ChannelSpecView>, GrammarError> {
    spec_parse_from(s, 0)
}

fn is_space_c(c: char) -> (r: bool)
    ensures
        r == is_space(c),
{
    c == ' ' || c == '\t' || c == '\n' || c == '\r'
}

fn is_digit_c(c: char) -> (r: bool)
    ensures
        r == is_digit(c),
{
    let u = c as u32;
    48 <= u && u <= 57
}

fn is_ident_start_c(c: char) -> (r: bool)
    ensures
        r == is_ident_start(c),
{
    let u = c as u32;
    (97 <= u && u <= 122) || (65 <= u && u <= 90) || c == '_'
}

fn is_ident_continue_c(c: char) -> (r: bool)
    ensures
        r == is_ident_continue(c),
{
    is_ident_start_c(c) || is_digit_c(c)
}

fn skip_ws(s: &str, i: usize, n: usize) -> (j: usize)
    requires
        n == s@.len(),
        i <= n,
    ensures
        j as int == spec_skip_ws(s@, i as int),
        i <= j <= n,
{
    let mut j = i;
    while j < n && is_space_c(s.get_char(j))
        invariant
            n == s@.len(),
            i <= j <= n,
            spec_skip_ws(s@, i as int) == spec_skip_ws(s@, j as int),
        decreases n - j,
    {
        j = j + 1;
    }
    j
}

fn scan_ident_end(s: &str, i: usize, n: usize) -> (j: usize)
    requires
        n == s@.len(),
        i <= n,
    ensures
        j as int == spec_ident_end(s@, i as int),
        i <= j <= n,
{
    let mut j = i;
    while j < n && is_ident_continue_c(s.get_char(j))
        invariant
            n == s@.len(),
            i <= j <= n,
            spec_ident_end(s@, i as int) == spec_ident_end(s@, j as int),
        decreases n - j,
    {
        j = j + 1;
    }
    j
}

fn scan_digits_end(s: &str, i: usize, n: usize) -> (j: usize)
    requires
        n == s@.len(),
        i <= n,
    ensures
        j as int == spec_digits_end(s@, i as int),
        i <= j <= n,
{
    let mut j = i;
    while j < n && is_digit_c(s.get_char(j))
        invariant
            n == s@.len(),
            i <= j <= n,
            spec_digits_end(s@, i as int) == spec_digits_end(s@, j as int),
        decreases n - j,
    {
        j = j + 1;
    }
    j
}

/// Appending digits never shrinks the value of a digit run.
proof fn lemma_digits_value_grows(s: Seq<char>, i: int, k: int, j: int)
    requires
        i <= k <= j <= s.len(),
        forall|m: int| i <= m < j ==> is_digit(s[m]),
    ensures
        spec_digits_value(s, i, j) >= spec_digits_value(s, i, k),
        spec_digits_value(s, i, k) >= 0,
    decreases j - k,
{
    if k == j {
        lemma_digits_value_nonneg(s, i, k);
    } else {
        lemma_digits_value_grows(s, i, k, j - 1);
        lemma_digits_value_nonneg(s, i, j - 1);
    }
}

proof fn lemma_digits_value_nonneg(s: Seq<char>, i: int, j: int)
    requires
        forall|m: int| i <= m < j ==> is_digit(s[m]),
    ensures
        spec_digits_value(s, i, j) >= 0,
    decreases j - i,
{
    if j > i {
        lemma_digits_value_nonneg(s, i, j - 1);
    }
}

fn digits_value(s: &str, i: usize, j: usize, n: usize) -> (r: Option<usize>)
    requires
        n == s@.len(),
        i <= j <= n,
        forall|m: int| i <= m < j ==> is_digit(s@[m]),
    ensures
        match r {
            Some(v) => v as int == spec_digits_value(s@, i as int, j as int),
            None => spec_digits_value(s@, i as int, j as int) > usize::MAX,
        },
{
    let mut v: usize = 0;
    let mut k = i;
    while k < j
        invariant
            n == s@.len(),
            i <= k <= j <= n,
            forall|m: int| i <= m < j ==> is_digit(s@[m]),
            v as int == spec_digits_value(s@, i as int, k as int),
        decreases j - k,
    {
        let c = s.get_char(k);
        let d = (c as u32 - 48) as usize;
        if v > (usize::MAX - d) / 10 {
            proof {
                assert(v * 10 + d > usize::MAX) by (nonlinear_arith)
                    requires
                        v > (usize::MAX - d) / 10,
                        d <= 9,
                        (usize::MAX - d) / 10 >= 0,
                ;
                assert(spec_digits_value(s@, i as int, k + 1) == v * 10 + d);
                lemma_digits_value_grows(s@, i as int, k + 1, j as int);
            }
            return None;
        }
        proof {
            assert(v * 10 + d <= usize::MAX) by (nonlinear_arith)
                requires
                    v <= (usize::MAX - d) / 10,
                    v >= 0,
                    d <= usize::MAX,
            ;
        }
        v = v * 10 + d;
        k = k + 1;
    }
    Some(v)
}

fn string_matches(a: &String, b: &str) -> (r: bool)
    ensures
        r == (a@ == b@),
{
    let bs = b.to_owned();
    a.eq(&bs)
}

impl ChannelType {
    /// The delivery semantics a tag declares: `mpsc` is point-to-point,
    /// `mpmc` is broadcast, compared case-insensitively; any other tag is
    /// reported back in the error message.
    pub fn from_str(s: &str) -> (r: Result<ChannelType, String>)
        ensures
            match r {
                Ok(ct) => spec_channel_type_of(s@) == Some(ct),
                Err(m) => spec_channel_type_of(s@) is None && m@ == "Unknown channel type: "@
                    + s@,
            },
    {
        let lowered = crate::naming::to_lower(s);
        proof {
            reveal_strlit("mpsc");
            reveal_strlit("mpmc");
            assert("mpsc"@ =~= seq!['m', 'p', 's', 'c']);
            assert("mpmc"@ =~= seq!['m', 'p', 'm', 'c']);
        }
        if string_matches(&lowered, "mpsc") {
            Ok(ChannelType::Mpsc)
        } else if string_matches(&lowered, "mpmc") {
            Ok(ChannelType::Mpmc)
        } else {
            Err("Unknown channel type: ".to_owned().concat(s))
        }
    }
}

fn parse_record(s: &str, i: usize, n: usize) -> (r: Result<(ChannelSpec, usize), GrammarError>)
    requires
        n == s@.len(),
        i < n,
    ensures
        match r {
            Ok((cs, k)) => spec_parse_record(s@, i as int) == Ok::<(ChannelSpecView, int), GrammarError>(
                (cs@, k as int),
            ) && i < k <= n,
            Err(e) => spec_parse_record(s@, i as int) == Err::<(ChannelSpecView, int), GrammarError>(e),
        },
{
    if !is_ident_start_c(s.get_char(i)) {
        return Err(GrammarError { kind: GrammarErrorKind::ExpectedName, at: i });
    }
    let ne = scan_ident_end(s, i + 1, n);
    let name = s.substring_char(i, ne).to_owned();
    let p1 = skip_ws(s, ne, n);
    if !(p1 < n && s.get_char(p1) == ',') {
        return Err(GrammarError { kind: GrammarErrorKind::ExpectedComma, at: p1 });
    }
    let p2 = skip_ws(s, p1 + 1, n);
    if !(p2 < n && is_ident_start_c(s.get_char(p2))) {
        return Err(GrammarError { kind: GrammarErrorKind::ExpectedChannelType, at: p2 });
    }
    let te = scan_ident_end(s, p2 + 1, n);
    let tag = s.substring_char(p2, te);
    let ct = match ChannelType::from_str(tag) {
        Ok(ct) => ct,
        Err(_) => {
            return Err(GrammarError { kind: GrammarErrorKind::UnknownChannelType, at: p2 });
        },
    };
    let p3 = skip_ws(s, te, n);
    if !(p3 < n && s.get_char(p3) == ',') {
        return Err(GrammarError { kind: GrammarErrorKind::ExpectedComma, at: p3 });
    }
    let p4 = skip_ws(s, p3 + 1, n);
    if !(p4 < n && is_digit_c(s.get_char(p4))) {
        return Err(GrammarError { kind: GrammarErrorKind::ExpectedCapacity, at: p4 });
    }
    let de = scan_digits_end(s, p4 + 1, n);
    proof {
        assert(spec_digits_end(s@, p4 as int) == de as int);
        assert forall|m: int| p4 <= m < de implies is_digit(s@[m]) by {
            lemma_digits_run(s@, p4 as int, m);
        }
    }
    let v = match digits_value(s, p4, de, n) {
        Some(v) => v,
        None => {
            return Err(GrammarError { kind: GrammarErrorKind::InvalidCapacity, at: p4 });
        },
    };
    if v < 1 {
        return Err(GrammarError { kind: GrammarErrorKind::InvalidCapacity, at: p4 });
    }
    let p5 = skip_ws(s, de, n);
    if !(p5 < n && s.get_char(p5) == ';') {
        return Err(GrammarError { kind: GrammarErrorKind::ExpectedSemicolon, at: p5 });
    }
    Ok((ChannelSpec { name, channel_type: ct, capacity: v }, p5 + 1))
}

/// Every position of a digit run up to its end holds a digit.
proof fn lemma_digits_run(s: Seq<char>, i: int, m: int)
    requires
        i <= m < spec_digits_end(s, i),
    ensures
        is_digit(s[m]),
    decreases m - i,
{
    if i < m {
        lemma_digits_run(s, i + 1, m);
    }
}

/// Parse a whole specification text: one [`ChannelSpec`] per record, in
/// source order, with exactly the declared name, semantics and capacity;
/// or the first grammar deviation, with nothing produced.
pub fn parse_channels(s: &str) -> (r: Result<Vec<ChannelSpec>, GrammarError>)
    ensures
        match r {
            Ok(specs) => spec_parse_channels(s@) == Ok::<Seq<ChannelSpecView>, GrammarError>(
                specs@.map_values(|cs: ChannelSpec| cs@),
            ),
            Err(e) => spec_parse_channels(s@) == Err::<Seq<ChannelSpecView>, GrammarError>(e),
        },
{
    let n = s.unicode_len();
    let mut out: Vec<ChannelSpec> = Vec::new();
    let mut i: usize = 0;
    loop
        invariant
            n == s@.len(),
            i <= n,
            spec_parse_from(s@, 0) == combine(
                out@.map_values(|cs: ChannelSpec| cs@),
                spec_parse_from(s@, i as int),
            ),
        decreases n - i,
    {
        let j = skip_ws(s, i, n);
        if j >= n {
            proof {
                assert(spec_parse_from(s@, i as int) == Ok::<Seq<ChannelSpecView>, GrammarError>(
                    Seq::empty(),
                ));
                assert(out@.map_values(|cs: ChannelSpec| cs@) + Seq::<ChannelSpecView>::empty()
                    =~= out@.map_values(|cs: ChannelSpec| cs@));
            }
            return Ok(out);
        }
        match parse_record(s, j, n) {
            Err(e) => {
                return Err(e);
            },
            Ok((cs, k)) => {
                let ghost pre = out@.map_values(|c: ChannelSpec| c@);
                out.push(cs);
                proof {
                    assert(out@.map_values(|c: ChannelSpec| c@) =~= pre.push(cs@));
                    let rest = spec_parse_from(s@, k as int);
                    if rest is Ok {
                        assert(pre + (seq![cs@] + rest->Ok_0) =~= pre.push(cs@) + rest->Ok_0);
                    }
                }
                i = k;
            },
        }
    }
}

/// How a prefix of already-parsed channels combines with the outcome of
/// parsing the remainder of the text.
pub open spec fn combine(
    pre: Seq<ChannelSpecView>,
    rest: Result<Seq<ChannelSpecView>, GrammarError>,
) -> Result<Seq<ChannelSpecView>, GrammarError> {
    match rest {
        Ok(tail) => Ok(pre + tail),
        Err(e) => Err(e),
    }
}

} // verus!
