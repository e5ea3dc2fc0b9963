//! Deterministic identifier derivation.
//!
//! Every generated name of the registry is derived from a channel's declared
//! base name: the sender endpoint type is `name + "Tx"`, the receiver
//! endpoint type is `name + "Rx"`, the registry field key is the lowercased
//! base name, and the accessor methods are the key followed by `_tx` / `_rx`.
//! In the other direction, a consumer-declared endpoint identifier resolves
//! to a direction (by its two-character suffix, case-insensitively) and to
//! the registry key of its channel (by removing the suffix and lowercasing).

use vstd::prelude::*;

verus! {

/// Which side of a channel an endpoint identifier designates.
#[derive(Clone, Copy, PartialEq, Eq, Structural, Debug)]
pub enum Direction {
    Sender,
    Receiver,
}

/// An endpoint identifier whose two-character suffix is neither `Tx` nor
/// `Rx` (case-insensitively); carries the offending identifier.
#[derive(Clone, PartialEq, Eq, Debug)]
pub struct NamingError {
    pub ident: String,
}

/// `c` is an ASCII upper-case letter.
pub open spec fn is_ascii_upper(c: char) -> bool {
    65 <= c as u32 && c as u32 <= 90
}

/// ASCII lower-casing of one character; every other character is unchanged.
pub open spec fn lower_char(c: char) -> char {
    if is_ascii_upper(c) {
        (((c as u32) + 32) as u8) as char
    } else {
        c
    }
}

/// ASCII lower-casing of a whole identifier.
pub open spec fn lower(s: Seq<char>) -> Seq<char> {
    s.map_values(|c: char| lower_char(c))
}

/// The sender endpoint type name derived from a channel's base name.
pub open spec fn spec_tx_name(name: Seq<char>) -> Seq<char> {
    name + seq!['T', 'x']
}

/// The receiver endpoint type name derived from a channel's base name.
pub open spec fn spec_rx_name(name: Seq<char>) -> Seq<char> {
    name + seq!['R', 'x']
}

/// The direction encoded in an endpoint identifier's suffix, or `None`
/// when the suffix is not recognized.
pub open spec fn spec_direction(ident: Seq<char>) -> Option<Direction> {
    if ident.len() >= 2 {
        let sfx = lower(ident).subrange(ident.len() - 2, ident.len() as int);
        if sfx == seq!['t', 'x'] {
            Some(Direction::Sender)
        } else if sfx == seq!['r', 'x'] {
            Some(Direction::Receiver)
        } else {
            None
        }
    } else {
        None
    }
}

/// The registry key of the channel an endpoint identifier refers to: the
/// identifier without its two-character suffix, lowercased. Meaningful
/// only when the identifier has a recognized suffix.
pub open spec fn spec_base_key(ident: Seq<char>) -> Seq<char>
    recommends
        ident.len() >= 2,
{
    lower(ident.subrange(0, ident.len() - 2))
}

/// The registry accessor name an endpoint identifier resolves to: the
/// channel key followed by `_tx` or `_rx` according to the direction.
pub open spec fn spec_accessor_name(ident: Seq<char>) -> Seq<char>
    recommends
        spec_direction(ident) is Some,
{
    if spec_direction(ident) == Some(Direction::Sender) {
        spec_base_key(ident) + seq!['_', 't', 'x']
    } else {
        spec_base_key(ident) + seq!['_', 'r', 'x']
    }
}

/// Relies on `String::push`: appends exactly one character at the end.
#[verifier::external_body]
pub(crate) fn push_char(s: &mut String, c: char)
    ensures
        final(s)@ == old(s)@.push(c),
{
    s.push(c);
}

fn to_lower_char(c: char) -> (r: char)
    ensures
        r == lower_char(c),
{
    let u = c as u32;
    if 65 <= u && u <= 90 {
        ((u + 32) as u8) as char
    } else {
        c
    }
}

/// ASCII lower-casing of an identifier, as the registry key derivation
/// uses it.
pub fn to_lower(s: &str) -> (r: String)
    ensures
        r@ == lower(s@),
{
    let n = s.unicode_len();
    let mut r = String::new();
    let mut i: usize = 0;
    while i < n
        invariant
            n == s@.len(),
            i <= n,
            r@ == lower(s@.subrange(0, i as int)),
        decreases n - i,
    {
        let c = s.get_char(i);
        let lc = to_lower_char(c);
        push_char(&mut r, lc);
        i = i + 1;
        proof {
            assert(s@.subrange(0, i as int) == s@.subrange(0, i - 1).push(s@[i - 1]));
            assert(r@ =~= lower(s@.subrange(0, i as int)));
        }
    }
    proof {
        assert(s@.subrange(0, n as int) == s@);
    }
    r
}

/// The sender endpoint type name for a channel: the base name with `Tx`
/// appended.
pub fn derive_tx_name(name: &str) -> (r: String)
    ensures
        r@ == spec_tx_name(name@),
{
    let mut r = name.to_owned();
    push_char(&mut r, 'T');
    push_char(&mut r, 'x');
    proof {
        assert(r@ =~= spec_tx_name(name@));
    }
    r
}

/// The receiver endpoint type name for a channel: the base name with `Rx`
/// appended.
pub fn derive_rx_name(name: &str) -> (r: String)
    ensures
        r@ == spec_rx_name(name@),
{
    let mut r = name.to_owned();
    push_char(&mut r, 'R');
    push_char(&mut r, 'x');
    proof {
        assert(r@ =~= spec_rx_name(name@));
    }
    r
}

/// The endpoint identifier designates a sender, judged case-insensitively
/// by its suffix. An identifier with any other suffix is simply not a
/// sender here; [`direction`] reports the error.
pub fn is_tx(ident: &str) -> (r: bool)
    ensures
        r == (spec_direction(ident@) == Some(Direction::Sender)),
{
    let n = ident.unicode_len();
    if n < 2 {
        return false;
    }
    let c1 = to_lower_char(ident.get_char(n - 2));
    let c2 = to_lower_char(ident.get_char(n - 1));
    proof {
        let sfx = lower(ident@).subrange(n - 2, n as int);
        assert(sfx =~= seq![c1, c2]);
        if c1 == 't' && c2 == 'x' {
            assert(sfx == seq!['t', 'x']);
        } else {
            assert(sfx != seq!['t', 'x']) by {
                if sfx == seq!['t', 'x'] {
                    assert(sfx[0] == 't' && sfx[1] == 'x');
                }
            }
        }
    }
    c1 == 't' && c2 == 'x'
}

/// The direction an endpoint identifier encodes in its suffix, or a
/// [`NamingError`] carrying the identifier when the suffix is neither
/// `Tx` nor `Rx` (case-insensitively).
pub fn direction(ident: &str) -> (r: Result<Direction, NamingError>)
    ensures
        match r {
            Ok(d) => spec_direction(ident@) == Some(d),
            Err(e) => spec_direction(ident@) is None && e.ident@ == ident@,
        },
{
    let n = ident.unicode_len();
    if n < 2 {
        return Err(NamingError { ident: ident.to_owned() });
    }
    let c1 = to_lower_char(ident.get_char(n - 2));
    let c2 = to_lower_char(ident.get_char(n - 1));
    proof {
        let sfx = lower(ident@).subrange(n - 2, n as int);
        assert(sfx =~= seq![c1, c2]);
        if sfx == seq!['t', 'x'] {
            assert(sfx[0] == 't' && sfx[1] == 'x');
        }
        if sfx == seq!['r', 'x'] {
            assert(sfx[0] == 'r' && sfx[1] == 'x');
        }
    }
    if c2 == 'x' && c1 == 't' {
        Ok(Direction::Sender)
    } else if c2 == 'x' && c1 == 'r' {
        Ok(Direction::Receiver)
    } else {
        Err(NamingError { ident: ident.to_owned() })
    }
}

/// The registry key an endpoint identifier resolves to: the identifier
/// without its recognized two-character suffix, lowercased.
pub fn basic_name(ident: &str) -> (r: Result<String, NamingError>)
    ensures
        match r {
            Ok(key) => spec_direction(ident@) is Some && key@ == spec_base_key(ident@),
            Err(e) => spec_direction(ident@) is None && e.ident@ == ident@,
        },
{
    let _dir = direction(ident)?;
    let n = ident.unicode_len();
    let stem = ident.substring_char(0, n - 2);
    Ok(to_lower(stem))
}

/// The registry accessor name an endpoint identifier resolves to: the
/// channel key followed by `_tx` for a sender or `_rx` for a receiver.
pub fn build_name(ident: &str) -> (r: Result<String, NamingError>)
    ensures
        match r {
            Ok(acc) => spec_direction(ident@) is Some && acc@ == spec_accessor_name(ident@),
            Err(e) => spec_direction(ident@) is None && e.ident@ == ident@,
        },
{
    let d = direction(ident)?;
    let mut key = basic_name(ident).unwrap();
    push_char(&mut key, '_');
    match d {
        Direction::Sender => {
            push_char(&mut key, 't');
        },
        Direction::Receiver => {
            push_char(&mut key, 'r');
        },
    }
    push_char(&mut key, 'x');
    proof {
        assert(key@ =~= spec_accessor_name(ident@));
    }
    Ok(key)
}

/// Naming round-trip: an endpoint name derived from any base name always
/// resolves back to the direction it was derived for, and to the channel
/// key of that base name.
pub proof fn lemma_naming_round_trip(name: Seq<char>)
    ensures
        spec_direction(spec_tx_name(name)) == Some(Direction::Sender),
        spec_direction(spec_rx_name(name)) == Some(Direction::Receiver),
        spec_base_key(spec_tx_name(name)) == lower(name),
        spec_base_key(spec_rx_name(name)) == lower(name),
{
    let tx = spec_tx_name(name);
    let rx = spec_rx_name(name);
    assert(lower(tx).subrange(tx.len() - 2, tx.len() as int) =~= seq!['t', 'x']);
    assert(lower(rx).subrange(rx.len() - 2, rx.len() as int) =~= seq!['r', 'x']);
    assert(seq!['r', 'x'] != seq!['t', 'x']) by {
        assert(seq!['r', 'x'][0] == 'r');
    }
    assert(tx.subrange(0, tx.len() - 2) =~= name);
    assert(rx.subrange(0, rx.len() - 2) =~= name);
    assert(spec_base_key(spec_tx_name(name)) == lower(name));
    assert(spec_base_key(spec_rx_name(name)) == lower(name));
}

/// Wiring consistency: a consumer that declares the endpoint name
/// derived from any base name resolves to exactly the accessor the
/// registry exposes for that channel — the lowercased base name with
/// the direction's `_tx` / `_rx` suffix.
pub proof fn lemma_wiring_consistency(name: Seq<char>)
    ensures
        spec_accessor_name(spec_tx_name(name)) == lower(name) + seq!['_', 't', 'x'],
        spec_accessor_name(spec_rx_name(name)) == lower(name) + seq!['_', 'r', 'x'],
{
    lemma_naming_round_trip(name);
}

} // verus!
