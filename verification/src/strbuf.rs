use vstd::prelude::*;

verus! {

/// An owned byte string: the payload of a DSL string literal and the
/// currency of everything that carries raw bytes through the library.
#[derive(Debug)]
pub struct Buf {
    pub inner: Vec<u8>,
}

/// The literal text could not be decoded: a non-hex character or an odd
/// number of hex digits inside a `|...|` run.
#[derive(Debug, Clone, PartialEq, Eq, Structural)]
pub struct StringLiteralParseError {}

/// Clone a byte vector; the copy holds exactly the same bytes.
pub fn clone_bytes(v: &Vec<u8>) -> (r: Vec<u8>)
    ensures
        r@ == v@,
{
    let r = v.clone();
    assert(r@ =~= v@);
    r
}

/// Compare two byte slices for equality of contents.
pub fn bytes_eq(a: &[u8], b: &[u8]) -> (r: bool)
    ensures
        r == (a@ == b@),
{
    if a.len() != b.len() {
        assert(a@ != b@) by {
            assert(a@.len() != b@.len());
        }
        return false;
    }
    let mut i: usize = 0;
    while i < a.len()
        invariant
            0 <= i <= a@.len(),
            a@.len() == b@.len(),
            forall|j: int| 0 <= j < i ==> a@[j] == b@[j],
        decreases a@.len() - i,
    {
        if a[i] != b[i] {
            return false;
        }
        i += 1;
    }
    assert(a@ =~= b@);
    true
}

impl Buf {
    pub open spec fn view(&self) -> Seq<u8> {
        self.inner@
    }

    /// Copy a byte slice into a fresh buffer.
    pub fn from_slice(s: &[u8]) -> (r: Buf)
        ensures
            r@ == s@,
    {
        let mut v: Vec<u8> = Vec::new();
        v.extend_from_slice(s);
        assert(v@ =~= s@);
        Buf { inner: v }
    }

    pub fn from_vec(v: Vec<u8>) -> (r: Buf)
        ensures
            r@ == v@,
    {
        Buf { inner: v }
    }

    pub fn len(&self) -> (r: usize)
        ensures
            r == self@.len(),
    {
        self.inner.len()
    }

    pub fn is_empty(&self) -> (r: bool)
        ensures
            r == (self@.len() == 0),
    {
        self.inner.len() == 0
    }

    pub fn as_slice(&self) -> (r: &[u8])
        ensures
            r@ == self@,
    {
        self.inner.as_slice()
    }

    /// Surrender the buffer's bytes as an owned vector.
    pub fn cow_buffer(self) -> (r: Vec<u8>)
        ensures
            r@ == self@,
    {
        self.inner
    }
}

impl Clone for Buf {
    fn clone(&self) -> (r: Self)
        ensures
            r@ == self@,
    {
        Buf { inner: clone_bytes(&self.inner) }
    }
}

impl Default for Buf {
    fn default() -> (r: Self)
        ensures
            r@ == Seq::<u8>::empty(),
    {
        let v: Vec<u8> = Vec::new();
        assert(v@ =~= Seq::<u8>::empty());
        Buf { inner: v }
    }
}

impl PartialEq for Buf {
    fn eq(&self, other: &Self) -> (r: bool) {
        bytes_eq(self.inner.as_slice(), other.inner.as_slice())
    }
}

impl vstd::std_specs::cmp::PartialEqSpecImpl for Buf {
    open spec fn obeys_eq_spec() -> bool {
        true
    }

    open spec fn eq_spec(&self, other: &Buf) -> bool {
        self@ == other@
    }
}

impl Eq for Buf {}

/// ASCII whitespace, ignored inside a hex run.
pub open spec fn is_space(c: u8) -> bool {
    c == 32 || c == 9 || c == 10 || c == 11 || c == 12 || c == 13
}

/// Cosmetic separators, ignored inside a hex run.
pub open spec fn is_sep(c: u8) -> bool {
    c == 58 || c == 46 || c == 95 || c == 45 || c == 39 || c == 96
}

pub open spec fn is_hex_digit(c: u8) -> bool {
    (48 <= c && c <= 57) || (97 <= c && c <= 102) || (65 <= c && c <= 70)
}

/// The value of one hex digit.
pub open spec fn hex_val(c: u8) -> u8 {
    if 48 <= c && c <= 57 {
        (c - 48) as u8
    } else if 97 <= c && c <= 102 {
        (c - 97 + 10) as u8
    } else if 65 <= c && c <= 70 {
        (c - 65 + 10) as u8
    } else {
        0
    }
}

/// The meaning of a string literal's body, one byte of input at a time.
///
/// Outside a hex run every byte is taken verbatim, and `|` opens a run.
/// Inside a run, whitespace and separators are skipped, pairs of hex
/// digits yield one byte, `|` closes the run, and anything else - or a
/// closing `|` after an odd digit - is a parse error (`None`).
pub open spec fn lit_decode(s: Seq<u8>, hex: bool, pend: Option<u8>) -> Option<Seq<u8>>
    decreases s.len(),
{
    if s.len() == 0 {
        Some(Seq::<u8>::empty())
    } else {
        let c = s[0];
        let rest = s.skip(1);
        if !hex {
            if c == 124 {
                lit_decode(rest, true, None)
            } else {
                match lit_decode(rest, false, None) {
                    Some(t) => Some(seq![c] + t),
                    None => None,
                }
            }
        } else {
            if is_space(c) || is_sep(c) {
                lit_decode(rest, true, pend)
            } else if c == 124 {
                if pend is Some {
                    None
                } else {
                    lit_decode(rest, false, None)
                }
            } else if is_hex_digit(c) {
                match pend {
                    None => lit_decode(rest, true, Some(hex_val(c))),
                    Some(p) => match lit_decode(rest, true, None) {
                        Some(t) => Some(seq![(p * 16 + hex_val(c)) as u8] + t),
                        None => None,
                    },
                }
            } else {
                None
            }
        }
    }
}

/// The decoded bytes of a whole literal, or `None` on a parse error.
pub open spec fn lit_spec(s: Seq<u8>) -> Option<Seq<u8>> {
    lit_decode(s, false, None)
}

impl Buf {
    /// Decode the body of a DSL string literal: verbatim bytes with
    /// `|...|`-delimited hex runs.
    pub fn parse(s: &[u8]) -> (r: Result<Buf, StringLiteralParseError>)
        ensures
            match r {
                Ok(b) => lit_spec(s@) == Some(b@),
                Err(_) => lit_spec(s@) is None,
            },
    {
        let mut v: Vec<u8> = Vec::new();
        let mut hex = false;
        let mut pend: Option<u8> = None;
        let mut i: usize = 0;

        proof {
            assert(s@.skip(0) =~= s@);
            if let Some(t) = lit_spec(s@) {
                assert(v@ + t =~= t);
            }
        }
        while i < s.len()
            invariant
                0 <= i <= s@.len(),
                pend is Some ==> hex,
                match pend {
                    Some(p) => p < 16,
                    None => true,
                },
                match lit_decode(s@.skip(i as int), hex, pend) {
                    Some(t) => lit_spec(s@) == Some(v@ + t),
                    None => lit_spec(s@) is None,
                },
            decreases s@.len() - i,
        {
            let c = s[i];
            proof {
                assert(s@.skip(i as int)[0] == c);
                assert(s@.skip(i as int).skip(1) =~= s@.skip(i + 1));
            }
            if !hex {
                if c == 124 {
                    hex = true;
                    pend = None;
                } else {
                    let ghost v0 = v@;
                    v.push(c);
                    proof {
                        if let Some(t) = lit_decode(s@.skip(i + 1), false, None::<u8>) {
                            assert(v0 + (seq![c] + t) =~= v@ + t);
                        }
                    }
                }
            } else {
                if c == 32 || c == 9 || c == 10 || c == 11 || c == 12 || c == 13 || c == 58
                    || c == 46 || c == 95 || c == 45 || c == 39 || c == 96 {
                    // skipped: whitespace or separator
                } else if c == 124 {
                    if pend.is_some() {
                        return Err(StringLiteralParseError {});
                    }
                    hex = false;
                } else if (48 <= c && c <= 57) || (97 <= c && c <= 102) || (65 <= c && c <= 70) {
                    let d: u8 = if c <= 57 {
                        c - 48
                    } else if c >= 97 {
                        c - 97 + 10
                    } else {
                        c - 65 + 10
                    };
                    assert(d == hex_val(c));
                    match pend {
                        None => {
                            pend = Some(d);
                        }
                        Some(p) => {
                            let ghost v0 = v@;
                            v.push(p * 16 + d);
                            pend = None;
                            proof {
                                if let Some(t) = lit_decode(s@.skip(i + 1), true, None::<u8>) {
                                    assert(v0 + (seq![(p * 16 + hex_val(c)) as u8] + t)
                                        =~= v@ + t);
                                }
                            }
                        }
                    }
                } else {
                    return Err(StringLiteralParseError {});
                }
            }
            i += 1;
        }
        proof {
            assert(s@.skip(i as int) =~= Seq::<u8>::empty());
            assert(lit_decode(s@.skip(i as int), hex, pend) == Some(Seq::<u8>::empty()));
            assert(v@ + Seq::<u8>::empty() =~= v@);
        }
        Ok(Buf { inner: v })
    }
}

} // verus!
