//! Byte-wise console line acquisition with echo and overrun detection.
//!
//! The console itself is outside this library: the caller reads one byte at
//! a time and feeds it to [`LineReader::push`], echoing what `push` says.
//! [`readline`] runs the same loop over an already-available byte sequence.

use vstd::prelude::*;

verus! {

/// A trailing carriage return is normalized to a line feed.
pub open spec fn spec_normalize(b: u8) -> u8 {
    if b == 13 {
        10
    } else {
        b
    }
}

/// Line acquisition stops once the buffer is full or ends in a line feed.
pub open spec fn spec_line_done(buf: Seq<u8>, cap: nat) -> bool {
    buf.len() >= cap || (buf.len() > 0 && buf.last() == 10)
}

/// A read overran when it filled the buffer without ever seeing a line feed.
pub open spec fn spec_line_overrun(buf: Seq<u8>, cap: nat) -> bool {
    buf.len() >= cap && (buf.len() == 0 || buf.last() != 10)
}

/// The first `n` bytes of `input`, each normalized.
pub open spec fn spec_norm_prefix(input: Seq<u8>, n: int) -> Seq<u8> {
    input.take(n).map(|i: int, b: u8| spec_normalize(b))
}

/// What the console echoes for a stored line: every byte but the line feeds.
pub open spec fn spec_echo(buf: Seq<u8>) -> Seq<u8>
    decreases buf.len(),
{
    if buf.len() == 0 {
        Seq::empty()
    } else if buf.last() == 10 {
        spec_echo(buf.drop_last())
    } else {
        spec_echo(buf.drop_last()) + seq![buf.last()]
    }
}

/// Buffered line acquisition: one console byte at a time goes in, the echo
/// decision comes out.
pub struct LineReader {
    /// Bytes stored so far, already normalized.
    pub buf: Vec<u8>,
    /// Buffer capacity: how many bytes may be stored.
    pub cap: usize,
}

impl LineReader {
    pub open spec fn spec_done(self) -> bool {
        spec_line_done(self.buf@, self.cap as nat)
    }

    pub open spec fn spec_overrun(self) -> bool {
        spec_line_overrun(self.buf@, self.cap as nat)
    }

    pub fn new(cap: usize) -> (r: LineReader)
        ensures
            r.buf@ == Seq::<u8>::empty(),
            r.cap == cap,
    {
        LineReader { buf: Vec::new(), cap }
    }

    /// True once the line is complete: the buffer is full or ends in a line
    /// feed.
    pub fn done(&self) -> (r: bool)
        ensures
            r == self.spec_done(),
    {
        self.buf.len() >= self.cap || (self.buf.len() > 0 && self.buf[self.buf.len() - 1] == 10)
    }

    /// True when the line is complete only because the buffer filled without
    /// a line feed; such a line is discarded, never interpreted.
    pub fn overrun(&self) -> (r: bool)
        ensures
            r == self.spec_overrun(),
    {
        self.buf.len() >= self.cap && (self.buf.len() == 0 || self.buf[self.buf.len() - 1] != 10)
    }

    /// Stores one console byte, normalized, and says what to echo: the byte
    /// itself, or nothing when it became the terminating line feed.
    pub fn push(&mut self, b: u8) -> (echo: Option<u8>)
        requires
            !old(self).spec_done(),
        ensures
            final(self).buf@ == old(self).buf@ + seq![spec_normalize(b)],
            final(self).cap == old(self).cap,
            echo == (if spec_normalize(b) == 10 {
                Option::<u8>::None
            } else {
                Option::Some(b)
            }),
    {
        let n = if b == 13 {
            10
        } else {
            b
        };
        self.buf.push(n);
        if n == 10 {
            None
        } else {
            Some(b)
        }
    }
}

/// One completed console read: the stored line, how many bytes were
/// consumed, whether the buffer overran, and everything echoed back.
pub struct LineRead {
    pub line: Vec<u8>,
    pub bytes_read: usize,
    pub overrun: bool,
    pub echo: Vec<u8>,
}

/// Reads one line out of `input` into a buffer of `cap` bytes, as the
/// console loop would: byte by byte, normalizing a carriage return to a
/// line feed, stopping at the first line feed or once `cap` bytes are
/// stored. The echo holds every stored byte except line feeds, closed by
/// the carriage-return-line-feed pair that is always written last. A
/// zero-capacity buffer reads nothing and reports an overrun. `input`
/// must cover the whole read: a console would simply keep waiting for
/// more bytes, but here they have to be in hand.
pub fn readline(input: &[u8], cap: usize) -> (r: LineRead)
    requires
        input@.len() >= cap || exists|k: int|
            0 <= k < input@.len() && spec_normalize(input@[k]) == 10,
    ensures
        r.bytes_read <= input@.len(),
        r.bytes_read <= cap,
        r.line@ == spec_norm_prefix(input@, r.bytes_read as int),
        spec_line_done(r.line@, cap as nat),
        forall|j: int|
            0 <= j < r.bytes_read ==> !spec_line_done(spec_norm_prefix(input@, j), cap as nat),
        r.overrun == spec_line_overrun(r.line@, cap as nat),
        r.echo@ == spec_echo(r.line@) + seq![13u8, 10u8],
{
    let mut reader = LineReader::new(cap);
    let mut echo: Vec<u8> = Vec::new();
    let mut i: usize = 0;
    proof {
        assert(reader.buf@ =~= spec_norm_prefix(input@, 0));
    }
    while !reader.done()
        invariant
            reader.cap == cap,
            i <= input@.len(),
            reader.buf@.len() == i,
            reader.buf@ == spec_norm_prefix(input@, i as int),
            forall|j: int| 0 <= j < i ==> !spec_line_done(spec_norm_prefix(input@, j), cap as nat),
            input@.len() >= cap || exists|k: int|
                0 <= k < input@.len() && spec_normalize(input@[k]) == 10,
            echo@ == spec_echo(reader.buf@),
        decreases input@.len() - i,
    {
        proof {
            if input@.len() < cap {
                let k = choose|k: int|
                    0 <= k < input@.len() && spec_normalize(input@[k]) == 10;
                if i > k {
                    let p = spec_norm_prefix(input@, k + 1);
                    assert(p.len() == k + 1);
                    assert(p.last() == spec_normalize(input@[k]));
                    assert(spec_line_done(p, cap as nat));
                    if k + 1 < i {
                        assert(!spec_line_done(spec_norm_prefix(input@, k + 1), cap as nat));
                    }
                    assert(false);
                }
            }
        }
        let b = input[i];
        let ghost prev = reader.buf@;
        let e = reader.push(b);
        if let Some(c) = e {
            echo.push(c);
        }
        i = i + 1;
        proof {
            assert(reader.buf@ =~= spec_norm_prefix(input@, i as int));
            assert(reader.buf@.drop_last() =~= prev);
            if spec_normalize(b) == 10 {
                assert(echo@ == spec_echo(reader.buf@));
            } else {
                assert(spec_normalize(b) == b);
                assert(echo@ =~= spec_echo(reader.buf@));
            }
        }
    }
    proof {
        if i > 0 {
            assert(!spec_line_done(spec_norm_prefix(input@, i - 1), cap as nat));
            assert(spec_norm_prefix(input@, i - 1).len() == i - 1);
        }
    }
    let over = reader.overrun();
    let n = reader.buf.len();
    echo.push(13);
    echo.push(10);
    proof {
        assert(echo@ =~= spec_echo(reader.buf@) + seq![13u8, 10u8]);
    }
    LineRead { line: reader.buf, bytes_read: n, overrun: over, echo }
}

/// A line longer than the input buffer with no line feed anywhere always
/// overruns: whatever prefix of it completes the read, the completed read
/// reports an overrun.
pub proof fn lemma_long_line_overruns(input: Seq<u8>, cap: nat, n: int)
    requires
        input.len() >= cap,
        forall|k: int| 0 <= k < input.len() ==> spec_normalize(#[trigger] input[k]) != 10,
        0 <= n <= input.len(),
        spec_line_done(spec_norm_prefix(input, n), cap),
    ensures
        spec_line_overrun(spec_norm_prefix(input, n), cap),
{
    let p = spec_norm_prefix(input, n);
    assert(p.len() == n);
    if n > 0 {
        assert(p.last() == spec_normalize(input[n - 1]));
        assert(p.last() != 10);
    }
}

} // verus!
