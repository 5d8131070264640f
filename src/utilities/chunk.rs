use vstd::prelude::*;

verus! {

pub const CR: u8 = 13;

pub const LF: u8 = 10;

pub const SEMICOLON: u8 = 59;

pub open spec fn is_hex(b: u8) -> bool {
    (48 <= b <= 57) || (97 <= b <= 102) || (65 <= b <= 70)
}

pub open spec fn hex_digit(b: u8) -> nat {
    if 48 <= b <= 57 {
        (b - 48) as nat
    } else if 97 <= b <= 102 {
        (b - 87) as nat
    } else {
        (b - 55) as nat
    }
}

pub open spec fn all_hex(d: Seq<u8>) -> bool {
    forall|i: int| 0 <= i < d.len() ==> #[trigger] is_hex(d[i])
}

/// The number that a run of hex digits spells, most significant first.
pub open spec fn hex_value(d: Seq<u8>) -> nat
    decreases d.len(),
{
    if d.len() == 0 {
        0
    } else {
        hex_value(d.drop_last()) * 16 + hex_digit(d.last())
    }
}

/// Index of the first CR or `;` at or after `i` (the end of the size digits),
/// or the length when there is none.
pub open spec fn digits_end(s: Seq<u8>, i: int) -> int
    decreases s.len() - i,
{
    if i < 0 || i >= s.len() || s[i] == CR || s[i] == SEMICOLON {
        i
    } else {
        digits_end(s, i + 1)
    }
}

/// Index of the first CR at or after `i`, or the length when there is none.
pub open spec fn cr_from(s: Seq<u8>, i: int) -> int
    decreases s.len() - i,
{
    if i < 0 || i >= s.len() || s[i] == CR {
        i
    } else {
        cr_from(s, i + 1)
    }
}

/// The chunk-size line that starts at `p`: hex digits, an optional extension
/// after `;` that runs to the CR, then CR LF. Gives the size and the position
/// after the line; `None` where the line is malformed, cut short, or names a
/// size that does not fit in `usize`.
pub open spec fn size_line(s: Seq<u8>, p: int) -> Option<(nat, int)> {
    let k = digits_end(s, p);
    if k >= s.len() {
        None
    } else {
        let j = if s[k] == SEMICOLON {
            cr_from(s, k + 1)
        } else {
            k
        };
        let digits = s.subrange(p, k);
        if j + 1 >= s.len() || s[j + 1] != LF {
            None
        } else if digits.len() == 0 || !all_hex(digits) || hex_value(digits) > usize::MAX {
            None
        } else {
            Some((hex_value(digits), j + 2))
        }
    }
}

/// Whether CR LF stands at `q`.
pub open spec fn crlf_at(s: Seq<u8>, q: int) -> bool {
    0 <= q && q + 1 < s.len() && s[q] == CR && s[q + 1] == LF
}

/// Reads at most `max` bytes of a chunk of which `c` bytes are left, starting
/// at `q`: gives the bytes, the new position and what is left of the chunk.
/// The CR LF after a chunk is consumed with its last byte.
pub open spec fn payload_step(s: Seq<u8>, q: int, c: nat, max: nat) -> Option<
    (Seq<u8>, int, Option<usize>),
> {
    let n = if c <= max {
        c
    } else {
        max
    };
    if q + n > s.len() {
        None
    } else if n == c {
        if crlf_at(s, q + n) {
            Some((s.subrange(q, q + n), q + n + 2, None))
        } else {
            None
        }
    } else {
        Some((s.subrange(q, q + n), q + n, Some((c - n) as usize)))
    }
}

/// One read of the decoder from position `pos`: the decoded bytes, the new
/// position and the rest of the current chunk, or `None` on malformed input.
/// A chunk of size zero ends the stream: its CR LF is consumed and nothing is
/// returned.
pub open spec fn read_step(s: Seq<u8>, pos: int, rem: Option<usize>, max: nat) -> Option<
    (Seq<u8>, int, Option<usize>),
> {
    match rem {
        Some(c) => payload_step(s, pos, c as nat, max),
        None => match size_line(s, pos) {
            None => None,
            Some((size, q)) => if size == 0 {
                if crlf_at(s, q) {
                    Some((Seq::empty(), q + 2, None))
                } else {
                    None
                }
            } else {
                payload_step(s, q, size, max)
            },
        },
    }
}

proof fn lemma_hex_value_prefix(d: Seq<u8>, i: int)
    requires
        0 <= i <= d.len(),
    ensures
        hex_value(d.subrange(0, i)) <= hex_value(d),
    decreases d.len(),
{
    if i < d.len() {
        lemma_hex_value_prefix(d.drop_last(), i);
        assert(d.drop_last().subrange(0, i) =~= d.subrange(0, i));
    } else {
        assert(d.subrange(0, i) =~= d);
    }
}

/// Malformed chunked input.
#[derive(Debug, Clone, Copy, PartialEq, Eq, Structural)]
pub struct DecoderError;

/// Decodes a chunked transfer-coded byte stream, read by read.
pub struct Decoder {
    source: Vec<u8>,
    position: usize,
    remaining_chunks_size: Option<usize>,
}

impl Decoder {
    pub closed spec fn source(&self) -> Seq<u8> {
        self.source@
    }

    /// How many bytes of the source have been consumed.
    pub closed spec fn position(&self) -> int {
        self.position as int
    }

    /// What is left of the chunk being read, if one is open.
    pub closed spec fn remaining(&self) -> Option<usize> {
        self.remaining_chunks_size
    }

    pub closed spec fn wf(&self) -> bool {
        self.position <= self.source@.len()
    }

    pub fn new(source: Vec<u8>) -> (r: Decoder)
        ensures
            r.wf(),
            r.source() == source@,
            r.position() == 0,
            r.remaining() is None,
    {
        Decoder { source, position: 0, remaining_chunks_size: None }
    }

    /// Bytes of the source not consumed yet.
    pub fn source_remaining(&self) -> (r: usize)
        requires
            self.wf(),
        ensures
            r == self.source().len() - self.position(),
    {
        self.source.len() - self.position
    }

    fn read_chunk_size(&mut self) -> (r: Result<usize, DecoderError>)
        requires
            old(self).wf(),
        ensures
            final(self).wf(),
            final(self).source == old(self).source,
            final(self).remaining_chunks_size == old(self).remaining_chunks_size,
            match size_line(old(self).source@, old(self).position as int) {
                None => r is Err,
                Some((size, q)) => r == Ok::<usize, DecoderError>(size as usize)
                    && final(self).position == q,
            },
    {
        let ghost s = self.source@;
        let p = self.position;
        let len = self.source.len();
        let mut k = p;
        while k < len && self.source[k] != CR && self.source[k] != SEMICOLON
            invariant
                p <= k <= len,
                len == s.len(),
                s == self.source@,
                self.position == p,
                digits_end(s, p as int) == digits_end(s, k as int),
            decreases len - k,
        {
            k = k + 1;
        }
        if k >= len {
            return Err(DecoderError);
        }
        let mut j = k;
        if self.source[k] == SEMICOLON {
            j = k + 1;
            while j < len && self.source[j] != CR
                invariant
                    k < j <= len,
                    len == s.len(),
                    s == self.source@,
                    self.position == p,
                    cr_from(s, k + 1) == cr_from(s, j as int),
                decreases len - j,
            {
                j = j + 1;
            }
        }
        if j >= len || len - j < 2 || self.source[j + 1] != LF {
            return Err(DecoderError);
        }
        if k == p {
            return Err(DecoderError);
        }
        let mut value: usize = 0;
        let mut i = p;
        while i < k
            invariant
                p <= i <= k,
                p < k < len,
                len == s.len(),
                s == self.source@,
                self.position == p,
                digits_end(s, p as int) == k as int,
                j as int == (if s[k as int] == SEMICOLON {
                    cr_from(s, k + 1)
                } else {
                    k as int
                }),
                j + 1 < len,
                s[j + 1] == LF,
                value == hex_value(s.subrange(p as int, i as int)),
                all_hex(s.subrange(p as int, i as int)),
            decreases k - i,
        {
            let b = self.source[i];
            assert(s.subrange(p as int, i + 1).drop_last() =~= s.subrange(p as int, i as int));
            if !((48 <= b && b <= 57) || (97 <= b && b <= 102) || (65 <= b && b <= 70)) {
                assert(!is_hex(s.subrange(p as int, k as int)[i - p]));
                return Err(DecoderError);
            }
            let d: usize = if b <= 57 {
                (b - 48) as usize
            } else if b >= 97 {
                (b - 87) as usize
            } else {
                (b - 55) as usize
            };
            if value > (usize::MAX - d) / 16 {
                proof {
                    let digits = s.subrange(p as int, k as int);
                    lemma_hex_value_prefix(digits, i + 1 - p);
                    assert(digits.subrange(0, i + 1 - p) =~= s.subrange(p as int, i + 1));
                }
                return Err(DecoderError);
            }
            value = value * 16 + d;
            proof {
                assert forall|m: int| 0 <= m < i + 1 - p implies #[trigger] is_hex(
                    s.subrange(p as int, i + 1)[m],
                ) by {
                    if m < i - p {
                        assert(s.subrange(p as int, i + 1)[m] == s.subrange(p as int, i as int)[m]);
                    }
                }
            }
            i = i + 1;
        }
        self.position = j + 2;
        Ok(value)
    }

    /// Consumes CR LF at the current position.
    fn read_crlf(&mut self) -> (r: Result<(), DecoderError>)
        requires
            old(self).wf(),
        ensures
            final(self).wf(),
            final(self).source == old(self).source,
            final(self).remaining_chunks_size == old(self).remaining_chunks_size,
            r is Ok <==> crlf_at(old(self).source@, old(self).position as int),
            r is Ok ==> final(self).position == old(self).position + 2,
    {
        let len = self.source.len();
        if len - self.position >= 2 && self.source[self.position] == CR && self.source[self.position
            + 1] == LF {
            self.position = self.position + 2;
            Ok(())
        } else {
            Err(DecoderError)
        }
    }

    /// Decodes up to `max` bytes and appends them to `buf`. Returns how many
    /// were appended; `Ok(0)` with `max > 0` marks the end of the stream.
    /// Malformed or cut-short input gives `DecoderError` and leaves `buf` and
    /// the decoder as they were.
    pub fn read(&mut self, buf: &mut Vec<u8>, max: usize) -> (r: Result<usize, DecoderError>)
        requires
            old(self).wf(),
        ensures
            final(self).wf(),
            final(self).source() == old(self).source(),
            match read_step(old(self).source(), old(self).position(), old(self).remaining(), max as nat) {
                None => {
                    &&& r is Err
                    &&& final(buf)@ == old(buf)@
                    &&& final(self).position() == old(self).position()
                    &&& final(self).remaining() == old(self).remaining()
                },
                Some((out, pos, rem)) => {
                    &&& r == Ok::<usize, DecoderError>(out.len() as usize)
                    &&& final(buf)@ == old(buf)@ + out
                    &&& final(self).position() == pos
                    &&& final(self).remaining() == rem
                },
            },
    {
        let saved = self.position;
        let r = self.read_once(buf, max);
        if r.is_err() {
            self.position = saved;
        }
        r
    }

    fn read_once(&mut self, buf: &mut Vec<u8>, max: usize) -> (r: Result<usize, DecoderError>)
        requires
            old(self).wf(),
        ensures
            final(self).wf(),
            final(self).source == old(self).source,
            match read_step(old(self).source(), old(self).position(), old(self).remaining(), max as nat) {
                None => r is Err && final(buf)@ == old(buf)@ && final(self).remaining()
                    == old(self).remaining(),
                Some((out, pos, rem)) => {
                    &&& r == Ok::<usize, DecoderError>(out.len() as usize)
                    &&& final(buf)@ == old(buf)@ + out
                    &&& final(self).position() == pos
                    &&& final(self).remaining() == rem
                },
            },
    {
        let remaining = match self.remaining_chunks_size {
            Some(c) => c,
            None => {
                let chunk_size = self.read_chunk_size()?;
                if chunk_size == 0 {
                    self.read_crlf()?;
                    return Ok(0);
                }
                chunk_size
            },
        };
        let n = if remaining <= max {
            remaining
        } else {
            max
        };
        let start = self.position;
        let len = self.source.len();
        if n > len - start {
            return Err(DecoderError);
        }
        if n == remaining {
            if !(len - (start + n) >= 2 && self.source[start + n] == CR && self.source[start + n
                + 1] == LF) {
                return Err(DecoderError);
            }
        }
        let ghost buf0 = buf@;
        let mut i = start;
        while i < start + n
            invariant
                start <= i <= start + n,
                start + n <= len,
                len == self.source@.len(),
                buf@ == buf0 + self.source@.subrange(start as int, i as int),
            decreases start + n - i,
        {
            buf.push(self.source[i]);
            assert(self.source@.subrange(start as int, i + 1) =~= self.source@.subrange(
                start as int,
                i as int,
            ).push(self.source@[i as int]));
            i = i + 1;
        }
        if n == remaining {
            self.position = start + n + 2;
            self.remaining_chunks_size = None;
        } else {
            self.position = start + n;
            self.remaining_chunks_size = Some(remaining - n);
        }
        Ok(n)
    }
}

} // verus!
