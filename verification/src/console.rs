//! Line buffering for the Windows debug console logger: bytes are gathered
//! until a line ends, and the line is handed out to be written.
use vstd::prelude::*;
use bytes::BytesMut;

verus! {

#[verifier::external_type_specification]
#[verifier::external_body]
pub struct ExBytesMut(BytesMut);

/// The bytes a `BytesMut` holds.
pub uninterp spec fn bytes_mut_contents(b: BytesMut) -> Seq<u8>;

/// `BytesMut::new`: an empty buffer.
#[verifier::external_body]
fn bytes_mut_new() -> (b: BytesMut)
    ensures
        bytes_mut_contents(b) == Seq::<u8>::empty(),
{
    BytesMut::new()
}

/// `BytesMut::extend_from_slice`: appends the bytes.
#[verifier::external_body]
fn bytes_mut_extend(b: &mut BytesMut, s: &[u8])
    requires
        bytes_mut_contents(*old(b)).len() + s@.len() <= usize::MAX,
    ensures
        bytes_mut_contents(*final(b)) == bytes_mut_contents(*old(b)) + s@,
{
    b.extend_from_slice(s)
}

/// `BytesMut` as a slice (`Deref`): its bytes.
#[verifier::external_body]
fn bytes_mut_as_slice(b: &BytesMut) -> (s: &[u8])
    ensures
        s@ == bytes_mut_contents(*b),
{
    &b[..]
}

/// `BytesMut::split_to`, the front part dropped: keeps the bytes from `at`
/// on.
#[verifier::external_body]
fn bytes_mut_drop_front(b: &mut BytesMut, at: usize)
    requires
        at <= bytes_mut_contents(*old(b)).len(),
    ensures
        bytes_mut_contents(*final(b)) == bytes_mut_contents(*old(b)).subrange(
            at as int,
            bytes_mut_contents(*old(b)).len() as int,
        ),
{
    let _ = b.split_to(at);
}

/// `memchr::memchr`: the index of the first occurrence of a byte, if any.
#[verifier::external_body]
fn find_byte(needle: u8, haystack: &[u8]) -> (r: Option<usize>)
    ensures
        match r {
            Some(i) => i < haystack@.len() && haystack@[i as int] == needle && forall|j: int|
                0 <= j < i ==> haystack@[j] != needle,
            None => forall|j: int| 0 <= j < haystack@.len() ==> haystack@[j] != needle,
        },
{
    memchr::memchr(needle, haystack)
}

/// What one write does with everything gathered so far (`all`): when it
/// holds a line end, the bytes before the first one are handed out as the
/// line and those after it are kept; otherwise nothing is handed out and all
/// is kept.
pub open spec fn console_step(all: Seq<u8>, line: Option<Seq<u8>>, kept: Seq<u8>) -> bool {
    if exists|i: int| 0 <= i < all.len() && all[i] == 10u8 {
        exists|i: int|
            0 <= i < all.len() && all[i] == 10u8 && (forall|j: int| 0 <= j < i ==> all[j] != 10u8)
                && line == Some(all.subrange(0, i)) && kept == all.subrange(i + 1, all.len() as int)
    } else {
        line is None && kept == all
    }
}

/// The bytes a write lets out: the line handed out with its line end.
pub open spec fn emitted(line: Option<Seq<u8>>) -> Seq<u8> {
    match line {
        Some(l) => l.push(10u8),
        None => seq![],
    }
}

/// No byte is lost, added or reordered by a write: what it lets out, then
/// what it keeps, is everything gathered; and a line handed out holds no
/// line end.
pub proof fn lemma_console_keeps_bytes(all: Seq<u8>, line: Option<Seq<u8>>, kept: Seq<u8>)
    requires
        console_step(all, line, kept),
    ensures
        emitted(line) + kept == all,
        line matches Some(l) ==> !l.contains(10u8),
{
    if exists|i: int| 0 <= i < all.len() && all[i] == 10u8 {
        let i = choose|i: int|
            0 <= i < all.len() && all[i] == 10u8 && (forall|j: int| 0 <= j < i ==> all[j] != 10u8)
                && line == Some(all.subrange(0, i)) && kept == all.subrange(
                i + 1,
                all.len() as int,
            );
        assert(emitted(line) + kept =~= all);
        let l = all.subrange(0, i);
        assert forall|j: int| 0 <= j < l.len() implies l[j] != 10u8 by {
            assert(l[j] == all[j]);
        }
    } else {
        assert(emitted(line) + kept =~= all);
    }
}

/// A writer that hands out one completed line per write.
pub struct ConsoleWriter(pub BytesMut);

impl Default for ConsoleWriter {
    /// A writer with nothing gathered.
    fn default() -> (w: ConsoleWriter)
        ensures
            w.pending() == Seq::<u8>::empty(),
    {
        ConsoleWriter(bytes_mut_new())
    }
}

impl ConsoleWriter {
    /// The bytes gathered and not yet handed out.
    pub open spec fn pending(&self) -> Seq<u8> {
        bytes_mut_contents(self.0)
    }

    /// Gathers the bytes; when the gathered bytes hold a line end, the first
    /// line, without its `\n`, is handed out to be logged and dropped with its
    /// `\n`. The whole write is always taken.
    pub fn write(&mut self, buf: &[u8]) -> (r: (usize, Option<Vec<u8>>))
        requires
            old(self).pending().len() + buf@.len() <= usize::MAX,
        ensures
            r.0 == buf@.len(),
            console_step(
                old(self).pending() + buf@,
                match r.1 {
                    Some(line) => Some(line@),
                    None => None,
                },
                final(self).pending(),
            ),
    {
        bytes_mut_extend(&mut self.0, buf);
        let ghost all = old(self).pending() + buf@;
        let found = find_byte(10u8, bytes_mut_as_slice(&self.0));
        match found {
            Some(i) => {
                let s = bytes_mut_as_slice(&self.0);
                let line = vstd::slice::slice_to_vec(vstd::slice::slice_subrange(s, 0, i));
                bytes_mut_drop_front(&mut self.0, i + 1);
                assert(all[i as int] == 10u8);
                (buf.len(), Some(line))
            },
            None => (buf.len(), None),
        }
    }
}

} // verus!
