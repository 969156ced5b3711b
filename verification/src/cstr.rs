//! Writing and reading the nul-terminated strings stored in the kernel's
//! fixed-size byte buffers.

use vstd::prelude::*;

use vstd::string::StringSliceAdditionalSpecFns;

use crate::errors::BufferError;
use crate::errors::PfError;

verus! {

/// A sequence of `n` zero bytes.
pub open spec fn zeros(n: nat) -> Seq<u8> {
    Seq::new(n, |i: int| 0u8)
}

/// Whether `src` can be stored in a nul-terminated buffer of capacity `cap`:
/// it must leave room for the terminator and hold no nul byte of its own.
pub open spec fn cstr_fits(src: Seq<u8>, cap: nat) -> bool {
    src.len() < cap && !src.contains(0u8)
}

/// The contents of the buffer `old_buf` after `src` and its terminator were
/// written: `src`, one nul byte, then the old bytes past that point.
pub open spec fn cstr_written(old_buf: Seq<u8>, src: Seq<u8>) -> Seq<u8>
    recommends
        src.len() < old_buf.len(),
{
    src + seq![0u8] + old_buf.skip(src.len() as int + 1)
}

/// Whether `p` is the string stored in buffer `buf`: the bytes strictly
/// before the first nul terminator.
pub open spec fn is_cstr_of(buf: Seq<u8>, p: Seq<u8>) -> bool {
    &&& p.len() < buf.len()
    &&& p == buf.take(p.len() as int)
    &&& buf[p.len() as int] == 0u8
    &&& !p.contains(0u8)
}

/// Whether `buf` holds a nul terminator at all.
pub open spec fn has_nul(buf: Seq<u8>) -> bool {
    exists|i: int| 0 <= i < buf.len() && buf[i] == 0u8
}

/// A buffer stores at most one string: two decodes of the same buffer agree.
pub proof fn lemma_cstr_of_unique(buf: Seq<u8>, p1: Seq<u8>, p2: Seq<u8>)
    requires
        is_cstr_of(buf, p1),
        is_cstr_of(buf, p2),
    ensures
        p1 == p2,
{
    if p1.len() < p2.len() {
        assert(p2[p1.len() as int] == buf[p1.len() as int]);
        assert(p2.contains(0u8));
    } else if p2.len() < p1.len() {
        assert(p1[p2.len() as int] == buf[p2.len() as int]);
        assert(p1.contains(0u8));
    } else {
        assert(p1 =~= p2);
    }
}

/// Law: a string that fits, written into a buffer and decoded back with the
/// terminator-scanning decode, is returned unchanged.
pub proof fn lemma_cstr_round_trip(old_buf: Seq<u8>, src: Seq<u8>)
    requires
        cstr_fits(src, old_buf.len()),
    ensures
        is_cstr_of(cstr_written(old_buf, src), src),
{
    let w = cstr_written(old_buf, src);
    assert(w.len() == old_buf.len());
    assert(src =~= w.take(src.len() as int));
    assert(w[src.len() as int] == 0u8);
}

/// Law: whatever the terminator-scanning decode reads back out of a buffer
/// a string was written into is that string.
pub proof fn lemma_cstr_write_read(old_buf: Seq<u8>, src: Seq<u8>, stored: Seq<u8>)
    requires
        cstr_fits(src, old_buf.len()),
        is_cstr_of(cstr_written(old_buf, src), stored),
    ensures
        stored == src,
{
    lemma_cstr_round_trip(old_buf, src);
    lemma_cstr_of_unique(cstr_written(old_buf, src), stored, src);
}

/// Write `src` into the fixed-size buffer `dst` as a nul-terminated string.
///
/// Fails, leaving `dst` unchanged, when `src` does not leave room for the
/// terminator or contains an embedded nul byte; otherwise copies the bytes
/// and appends the terminator, leaving bytes past the terminator as they
/// were.
pub fn write_cstr(src: &[u8], dst: &mut Vec<u8>) -> (r: Result<(), BufferError>)
    ensures
        final(dst)@.len() == old(dst)@.len(),
        match r {
            Ok(()) => cstr_fits(src@, old(dst)@.len()) && final(dst)@ == cstr_written(
                old(dst)@,
                src@,
            ),
            Err(e) => {
                &&& final(dst)@ == old(dst)@
                &&& !cstr_fits(src@, old(dst)@.len())
                &&& e == (if src@.len() >= old(dst)@.len() {
                    BufferError::DoesNotFit
                } else {
                    BufferError::EmbeddedNul
                })
            },
        },
{
    if src.len() >= dst.len() {
        return Err(BufferError::DoesNotFit);
    }
    let mut i: usize = 0;
    while i < src.len()
        invariant
            i <= src@.len(),
            src@.len() < old(dst)@.len(),
            dst@ == old(dst)@,
            forall|j: int| 0 <= j < i ==> src@[j] != 0u8,
        decreases src@.len() - i,
    {
        if src[i] == 0 {
            assert(src@.contains(0u8));
            return Err(BufferError::EmbeddedNul);
        }
        i += 1;
    }
    assert(!src@.contains(0u8));
    let mut k: usize = 0;
    while k < src.len()
        invariant
            k <= src@.len(),
            src@.len() < dst@.len(),
            dst@.len() == old(dst)@.len(),
            forall|j: int| 0 <= j < k ==> dst@[j] == src@[j],
            forall|j: int| k <= j < dst@.len() ==> dst@[j] == old(dst)@[j],
            !src@.contains(0u8),
        decreases src@.len() - k,
    {
        let b = src[k];
        dst.set(k, b);
        k += 1;
    }
    dst.set(src.len(), 0);
    assert(dst@ =~= cstr_written(old(dst)@, src@));
    Ok(())
}

/// Decode the nul-terminated string stored in `buf`: the bytes before the
/// first terminator. A buffer holding no terminator is rejected as
/// `UnterminatedString`.
pub fn read_cstr(buf: &[u8]) -> (r: Result<Vec<u8>, PfError>)
    ensures
        match r {
            Ok(p) => is_cstr_of(buf@, p@),
            Err(e) => !has_nul(buf@) && e == PfError::UnterminatedString,
        },
{
    let mut out: Vec<u8> = Vec::new();
    let mut i: usize = 0;
    while i < buf.len()
        invariant
            i <= buf@.len(),
            out@ == buf@.take(i as int),
            forall|j: int| 0 <= j < i ==> buf@[j] != 0u8,
        decreases buf@.len() - i,
    {
        let b = buf[i];
        if b == 0 {
            assert(!out@.contains(0u8)) by {
                if out@.contains(0u8) {
                    let w = choose|w: int| 0 <= w < out@.len() && out@[w] == 0u8;
                    assert(buf@[w] == 0u8);
                }
            };
            return Ok(out);
        }
        out.push(b);
        i += 1;
        assert(out@ =~= buf@.take(i as int));
    }
    assert(!has_nul(buf@));
    Err(PfError::UnterminatedString)
}

/// Whether two byte slices hold the same bytes.
pub fn bytes_eq(a: &[u8], b: &[u8]) -> (r: bool)
    ensures
        r == (a@ == b@),
{
    if a.len() != b.len() {
        return false;
    }
    let mut i: usize = 0;
    while i < a.len()
        invariant
            i <= a@.len(),
            a@.len() == b@.len(),
            forall|j: int| 0 <= j < i ==> a@[j] == b@[j],
        decreases a@.len() - i,
    {
        if a[i] != b[i] {
            return false;
        }
        i += 1;
    }
    assert(a@ =~= b@);
    true
}

/// Compare a string against the nul-terminated string stored in a raw
/// buffer, as the anchor lookup does. The comparison requires the buffer to
/// hold a terminator; a buffer without one is rejected rather than read past
/// its end.
pub fn compare_cstr_safe(s: &str, buf: &[u8]) -> (r: Result<bool, PfError>)
    ensures
        match r {
            Ok(eq) => exists|p: Seq<u8>|
                is_cstr_of(buf@, p) && (eq <==> p == s.spec_bytes()),
            Err(e) => !has_nul(buf@) && e == PfError::UnterminatedString,
        },
{
    let stored = read_cstr(buf)?;
    Ok(bytes_eq(s.as_bytes(), stored.as_slice()))
}

/// A fresh buffer of `n` zero bytes.
pub fn zero_bytes(n: usize) -> (r: Vec<u8>)
    ensures
        r@ == zeros(n as nat),
{
    let mut out: Vec<u8> = Vec::new();
    let mut i: usize = 0;
    while i < n
        invariant
            i <= n,
            out@ == zeros(i as nat),
        decreases n - i,
    {
        out.push(0);
        i += 1;
        assert(out@ =~= zeros(i as nat));
    }
    out
}

} // verus!
