//! Bit-exact packing of host records into device memory.
//!
//! Every record the GPU kernels touch is a sequence of 32-bit words;
//! the byte image of a record is the little-endian image of its words.
//! The pack and unpack functions here are the single source of truth
//! for that boundary: writes go through [`pack_items`], reads come back
//! through [`unpack_items`], and both are verified against the same
//! word model.

use vstd::prelude::*;

verus! {

/// The little-endian bytes of one 32-bit word, as the device sees them.
pub open spec fn u32_le_bytes(x: u32) -> Seq<u8> {
    seq![
        (x & 0xFF) as u8,
        ((x >> 8) & 0xFF) as u8,
        ((x >> 16) & 0xFF) as u8,
        ((x >> 24) & 0xFF) as u8,
    ]
}

/// Appends the little-endian bytes of `x` to `out`.
pub fn append_u32_le(out: &mut Vec<u8>, x: u32)
    ensures
        final(out)@ == old(out)@ + u32_le_bytes(x),
{
    out.push((x & 0xFF) as u8);
    out.push(((x >> 8) & 0xFF) as u8);
    out.push(((x >> 16) & 0xFF) as u8);
    out.push(((x >> 24) & 0xFF) as u8);
    proof {
        assert(out@ =~= old(out)@ + u32_le_bytes(x));
    }
}

/// Reads one 32-bit word from its little-endian bytes at `off`.
pub fn read_u32_le(data: &[u8], off: usize) -> (r: u32)
    requires
        off + 4 <= data@.len(),
    ensures
        u32_le_bytes(r) == data@.subrange(off as int, off as int + 4),
{
    let b0: u32 = data[off] as u32;
    let b1: u32 = data[off + 1] as u32;
    let b2: u32 = data[off + 2] as u32;
    let b3: u32 = data[off + 3] as u32;
    let r: u32 = b0 | (b1 << 8) | (b2 << 16) | (b3 << 24);
    proof {
        assert((r & 0xFF) == b0 && ((r >> 8) & 0xFF) == b1 && ((r >> 16) & 0xFF) == b2 && ((r
            >> 24) & 0xFF) == b3) by (bit_vector)
            requires
                r == b0 | (b1 << 8) | (b2 << 16) | (b3 << 24),
                b0 < 256,
                b1 < 256,
                b2 < 256,
                b3 < 256,
        ;
        assert(u32_le_bytes(r) =~= data@.subrange(off as int, off as int + 4));
    }
    r
}

/// The byte image of a sequence of 32-bit words.
pub open spec fn words_bytes(ws: Seq<u32>) -> Seq<u8>
    decreases ws.len(),
{
    if ws.len() == 0 {
        Seq::empty()
    } else {
        words_bytes(ws.drop_last()) + u32_le_bytes(ws.last())
    }
}

/// The byte image of `n` words takes `4 * n` bytes.
pub proof fn lemma_words_bytes_len(ws: Seq<u32>)
    ensures
        words_bytes(ws).len() == 4 * ws.len(),
    decreases ws.len(),
{
    if ws.len() > 0 {
        lemma_words_bytes_len(ws.drop_last());
    }
}

/// A fixed-size plain record, laid out in device memory as a run of
/// 32-bit words.  Implementations fix the exact word image; the typed
/// regions and buffers use it to move data across the host/device
/// boundary bit-exactly.
pub trait GpuData: Sized {
    /// The word image of one record.
    spec fn spec_words(self) -> Seq<u32>;

    /// How many 32-bit words one record takes.
    spec fn spec_word_count() -> nat;

    /// A record is never empty and never wider than 4096 words.
    proof fn lemma_word_count()
        ensures
            0 < Self::spec_word_count() <= 4096,
    ;

    /// Every record's word image has exactly `spec_word_count` words.
    proof fn lemma_words(self)
        ensures
            self.spec_words().len() == Self::spec_word_count(),
    ;

    /// The word count as a runtime value.
    fn word_count() -> (r: usize)
        ensures
            r == Self::spec_word_count(),
            0 < r <= 4096,
    ;

    /// Appends the word image of `self` to `out`.
    fn append_words(&self, out: &mut Vec<u32>)
        ensures
            final(out)@ == old(out)@ + self.spec_words(),
    ;

    /// Decodes record `i` from packed record words.
    fn from_words(data: &[u32], i: usize) -> (r: Self)
        requires
            (i + 1) * Self::spec_word_count() <= data@.len(),
        ensures
            r.spec_words() == data@.subrange(
                i * Self::spec_word_count(),
                (i + 1) * Self::spec_word_count(),
            ),
    ;
}

/// The concatenated word images of a sequence of records.
pub open spec fn items_words<T: GpuData>(s: Seq<T>) -> Seq<u32>
    decreases s.len(),
{
    if s.len() == 0 {
        Seq::empty()
    } else {
        items_words(s.drop_last()) + s.last().spec_words()
    }
}

/// `n` records pack into `n * spec_word_count` words.
pub proof fn lemma_items_words_len<T: GpuData>(s: Seq<T>)
    ensures
        items_words(s).len() == s.len() * T::spec_word_count(),
    decreases s.len(),
{
    if s.len() > 0 {
        lemma_items_words_len(s.drop_last());
        s.last().lemma_words();
        assert(s.len() * T::spec_word_count() == (s.len() - 1) * T::spec_word_count()
            + T::spec_word_count()) by (nonlinear_arith);
    } else {
        let n = s.len();
        assert(n == 0);
        assert(n * T::spec_word_count() == 0) by (nonlinear_arith)
            requires
                n == 0,
        ;
    }
}

/// The byte image of a sequence of records.
pub open spec fn items_bytes<T: GpuData>(s: Seq<T>) -> Seq<u8> {
    words_bytes(items_words(s))
}

/// Packs records into the exact bytes the device kernels read.
pub fn pack_items<T: GpuData>(items: &[T]) -> (r: Vec<u8>)
    ensures
        r@ == items_bytes(items@),
        r@.len() == items@.len() * 4 * T::spec_word_count(),
{
    let mut words: Vec<u32> = Vec::new();
    let n = items.len();
    let mut i: usize = 0;
    while i < n
        invariant
            i <= n,
            n == items@.len(),
            words@ == items_words(items@.take(i as int)),
        decreases n - i,
    {
        items[i].append_words(&mut words);
        proof {
            let t1 = items@.take(i + 1);
            assert(t1.drop_last() =~= items@.take(i as int));
            assert(t1.last() == items@[i as int]);
            assert(words@ =~= items_words(t1));
        }
        i = i + 1;
    }
    proof {
        assert(items@.take(n as int) =~= items@);
        lemma_items_words_len(items@);
    }
    let mut bytes: Vec<u8> = Vec::new();
    let wn = words.len();
    let mut j: usize = 0;
    while j < wn
        invariant
            j <= wn,
            wn == words@.len(),
            bytes@ == words_bytes(words@.take(j as int)),
            words@ == items_words(items@),
        decreases wn - j,
    {
        append_u32_le(&mut bytes, words[j]);
        proof {
            let t1 = words@.take(j + 1);
            assert(t1.drop_last() =~= words@.take(j as int));
            assert(t1.last() == words@[j as int]);
        }
        j = j + 1;
    }
    proof {
        assert(words@.take(wn as int) =~= words@);
        lemma_words_bytes_len(words@);
        assert(items@.len() * T::spec_word_count() * 4 == items@.len() * 4
            * T::spec_word_count()) by (nonlinear_arith);
    }
    bytes
}

/// Unpacks `count` records from the exact bytes the device produced.
pub fn unpack_items<T: GpuData>(bytes: &[u8], count: usize) -> (r: Vec<T>)
    requires
        bytes@.len() == count * 4 * T::spec_word_count(),
        count * T::spec_word_count() <= usize::MAX,
    ensures
        r@.len() == count,
        items_bytes(r@) == bytes@,
{
    let wc = T::word_count();
    proof {
        assert(count * (4 * wc) == count * 4 * wc) by (nonlinear_arith);
    }
    let total_words: usize = count * wc;
    proof {
        assert(4 * (count * wc) == count * 4 * wc) by (nonlinear_arith);
    }
    let bn = bytes.len();
    let mut words: Vec<u32> = Vec::new();
    let mut j: usize = 0;
    while j < total_words
        invariant
            j <= total_words,
            wc == T::spec_word_count(),
            total_words == count * wc,
            bn == bytes@.len(),
            bytes@.len() == 4 * total_words,
            j == words@.len(),
            words_bytes(words@) == bytes@.take(4 * j),
        decreases total_words - j,
    {
        proof {
            assert(4 * j + 4 <= bn);
            lemma_words_bytes_len(words@);
        }
        let w = read_u32_le(bytes, 4 * j);
        let ghost pre = words@;
        words.push(w);
        proof {
            assert(words@.drop_last() =~= pre);
            assert(words_bytes(words@) == words_bytes(words@.drop_last()) + u32_le_bytes(
                words@.last(),
            ));
            assert(words_bytes(words@) =~= bytes@.take(4 * (j + 1)));
        }
        j = j + 1;
    }
    proof {
        assert(bytes@.take(4 * total_words) =~= bytes@);
    }
    let mut out: Vec<T> = Vec::new();
    let mut i: usize = 0;
    while i < count
        invariant
            i <= count,
            wc == T::spec_word_count(),
            total_words == count * wc,
            words@.len() == total_words,
            out@.len() == i,
            items_words(out@) == words@.take(i * wc),
            words_bytes(words@) == bytes@,
        decreases count - i,
    {
        proof {
            assert((i + 1) * wc <= count * wc) by (nonlinear_arith)
                requires
                    i < count,
                    0 <= wc,
            ;
        }
        let x = T::from_words(words.as_slice(), i);
        let ghost pre = out@;
        out.push(x);
        proof {
            assert(out@.drop_last() =~= pre);
            assert(items_words(out@) == items_words(out@.drop_last()) + out@.last().spec_words());
            assert((i + 1) * wc == i * wc + wc) by (nonlinear_arith);
            assert(items_words(out@) =~= words@.take((i + 1) * wc));
        }
        i = i + 1;
    }
    proof {
        assert(words@.take(count * wc) =~= words@);
    }
    out
}

impl GpuData for u32 {
    open spec fn spec_words(self) -> Seq<u32> {
        seq![self]
    }

    open spec fn spec_word_count() -> nat {
        1
    }

    proof fn lemma_word_count() {
    }

    proof fn lemma_words(self) {
    }

    fn word_count() -> (r: usize) {
        1
    }

    fn append_words(&self, out: &mut Vec<u32>) {
        out.push(*self);
        proof {
            assert(out@ =~= old(out)@ + self.spec_words());
        }
    }

    fn from_words(data: &[u32], i: usize) -> (r: Self) {
        let r = data[i];
        proof {
            assert(r.spec_words() =~= data@.subrange(i as int, i as int + 1));
        }
        r
    }
}

impl GpuData for u64 {
    open spec fn spec_words(self) -> Seq<u32> {
        seq![(self & 0xFFFF_FFFF) as u32, (self >> 32) as u32]
    }

    open spec fn spec_word_count() -> nat {
        2
    }

    proof fn lemma_word_count() {
    }

    proof fn lemma_words(self) {
    }

    fn word_count() -> (r: usize) {
        2
    }

    fn append_words(&self, out: &mut Vec<u32>) {
        let x: u64 = *self;
        out.push((x & 0xFFFF_FFFF) as u32);
        out.push((x >> 32) as u32);
        proof {
            assert(out@ =~= old(out)@ + self.spec_words());
        }
    }

    fn from_words(data: &[u32], i: usize) -> (r: Self) {
        let lo: u64 = data[2 * i] as u64;
        let hi: u64 = data[2 * i + 1] as u64;
        let r: u64 = lo | (hi << 32);
        proof {
            assert((r & 0xFFFF_FFFF) == lo && (r >> 32) == hi) by (bit_vector)
                requires
                    r == lo | (hi << 32),
                    lo < 0x1_0000_0000,
                    hi < 0x1_0000_0000,
            ;
            assert(r.spec_words() =~= data@.subrange(2 * i, 2 * i + 2));
        }
        r
    }
}

} // verus!
