//! The WAV file format: mono, 16 bits.

use vstd::prelude::*;

verus! {

/// The two bytes of a number, low byte first.
pub open spec fn le16(x: int) -> Seq<u8> {
    seq![(x % 256) as u8, (x / 256 % 256) as u8]
}

/// The four bytes of a number, low byte first.
pub open spec fn le32(x: int) -> Seq<u8> {
    le16(x % 0x1_0000) + le16(x / 0x1_0000)
}

/// The bytes of the samples, low byte first, negative ones in two's complement.
pub open spec fn sample_bytes(s: Seq<i16>) -> Seq<u8>
    decreases s.len(),
{
    if s.len() == 0 {
        Seq::empty()
    } else {
        sample_bytes(s.drop_last()) + le16(
            if s.last() < 0 {
                s.last() + 0x1_0000
            } else {
                s.last() as int
            },
        )
    }
}

/// The header of a mono 16-bit file of `n` samples at `rate` frames per second.
pub open spec fn header(rate: int, n: int) -> Seq<u8> {
    seq![0x52u8, 0x49u8, 0x46u8, 0x46u8] + le32(36 + 2 * n) + seq![0x57u8, 0x41u8, 0x56u8, 0x45u8]
        + seq![0x66u8, 0x6Du8, 0x74u8, 0x20u8] + le32(16) + le16(1) + le16(1) + le32(rate) + le32(
        2 * rate,
    ) + le16(2) + le16(16) + seq![0x64u8, 0x61u8, 0x74u8, 0x61u8] + le32(2 * n)
}

fn put16(out: &mut Vec<u8>, x: u16)
    ensures
        final(out)@ == old(out)@ + le16(x as int),
{
    let ghost before = out@;
    out.push((x % 256) as u8);
    out.push((x / 256) as u8);
    assert(out@ =~= before + le16(x as int));
}

fn put32(out: &mut Vec<u8>, x: u32)
    ensures
        final(out)@ == old(out)@ + le32(x as int),
{
    let ghost before = out@;
    put16(out, (x % 0x1_0000) as u16);
    put16(out, (x / 0x1_0000) as u16);
    assert(out@ =~= before + le32(x as int));
}

fn put_tag(out: &mut Vec<u8>, a: u8, b: u8, c: u8, d: u8)
    ensures
        final(out)@ == old(out)@ + seq![a, b, c, d],
{
    let ghost before = out@;
    out.push(a);
    out.push(b);
    out.push(c);
    out.push(d);
    assert(out@ =~= before + seq![a, b, c, d]);
}

/// The bytes of a mono 16-bit file.
pub fn pcm16_mono(rate: u32, samples: &Vec<i16>) -> (out: Vec<u8>)
    requires
        2 * rate <= u32::MAX,
        36 + 2 * samples@.len() <= u32::MAX,
    ensures
        out@ == header(rate as int, samples@.len() as int) + sample_bytes(samples@),
{
    let n: u32 = samples.len() as u32;
    let mut out: Vec<u8> = Vec::new();
    put_tag(&mut out, 0x52, 0x49, 0x46, 0x46);
    put32(&mut out, 36 + 2 * n);
    put_tag(&mut out, 0x57, 0x41, 0x56, 0x45);
    put_tag(&mut out, 0x66, 0x6D, 0x74, 0x20);
    put32(&mut out, 16);
    put16(&mut out, 1);
    put16(&mut out, 1);
    put32(&mut out, rate);
    put32(&mut out, 2 * rate);
    put16(&mut out, 2);
    put16(&mut out, 16);
    put_tag(&mut out, 0x64, 0x61, 0x74, 0x61);
    put32(&mut out, 2 * n);
    let ghost h = header(rate as int, samples@.len() as int);
    assert(out@ =~= h);
    assert(sample_bytes(samples@.take(0)) =~= Seq::empty());
    let mut i: usize = 0;
    while i < samples.len()
        invariant
            i <= samples@.len(),
            out@ == h + sample_bytes(samples@.take(i as int)),
        decreases samples@.len() - i,
    {
        let s: i16 = samples[i];
        let x: u16 = if s < 0 {
            (s as i32 + 0x1_0000) as u16
        } else {
            s as u16
        };
        proof {
            assert(samples@.take(i + 1).drop_last() =~= samples@.take(i as int));
        }
        let ghost before = out@;
        put16(&mut out, x);
        assert(out@ =~= h + sample_bytes(samples@.take(i + 1)));
        i += 1;
    }
    proof {
        assert(samples@.take(i as int) =~= samples@);
    }
    out
}

proof fn lemma_sample_bytes_len(s: Seq<i16>)
    ensures
        sample_bytes(s).len() == 2 * s.len(),
    decreases s.len(),
{
    if s.len() > 0 {
        lemma_sample_bytes_len(s.drop_last());
    }
}

/// A file is its 44-byte header and two bytes for each sample.
pub proof fn file_length(rate: int, s: Seq<i16>)
    ensures
        (header(rate, s.len() as int) + sample_bytes(s)).len() == 44 + 2 * s.len(),
{
    lemma_sample_bytes_len(s);
}

/// The number that two bytes of a file hold, low byte first.
pub open spec fn read16(f: Seq<u8>, at: int) -> int {
    f[at] + 0x100 * f[at + 1]
}

/// The number that four bytes of a file hold, low byte first.
pub open spec fn read32(f: Seq<u8>, at: int) -> int {
    f[at] + 0x100 * f[at + 1] + 0x1_0000 * f[at + 2] + 0x100_0000 * f[at + 3]
}

proof fn lemma_le32(x: int)
    requires
        0 <= x <= u32::MAX,
    ensures
        le32(x).len() == 4,
        le32(x)[0] + 0x100 * le32(x)[1] + 0x1_0000 * le32(x)[2] + 0x100_0000 * le32(x)[3] == x,
{
}

/// What is written is read back from its place: a file says that it is RIFF and WAVE, mono,
/// of sixteen bits, at the rate given, and how much follows; and every sample is there.
pub proof fn files_read_back(rate: int, s: Seq<i16>, i: int)
    requires
        0 <= rate,
        2 * rate <= u32::MAX,
        36 + 2 * s.len() <= u32::MAX,
        0 <= i < s.len(),
    ensures
        ({
            let f = header(rate, s.len() as int) + sample_bytes(s);
            &&& f[0] == 82 && f[1] == 73 && f[2] == 70 && f[3] == 70
            &&& read32(f, 4) == f.len() - 8
            &&& f[8] == 87 && f[9] == 65 && f[10] == 86 && f[11] == 69
            &&& f[12] == 102 && f[13] == 109 && f[14] == 116 && f[15] == 32
            &&& read32(f, 16) == 16
            &&& read16(f, 20) == 1
            &&& read16(f, 22) == 1
            &&& read32(f, 24) == rate
            &&& read32(f, 28) == 2 * rate
            &&& read16(f, 32) == 2
            &&& read16(f, 34) == 16
            &&& f[36] == 100 && f[37] == 97 && f[38] == 116 && f[39] == 97
            &&& read32(f, 40) == 2 * s.len()
            &&& s[i] >= 0 ==> read16(f, 44 + 2 * i) == s[i]
            &&& s[i] < 0 ==> read16(f, 44 + 2 * i) == 0x1_0000 + s[i]
        }),
{
    file_length(rate, s);
    lemma_le32(36 + 2 * (s.len() as int));
    lemma_le32(16);
    lemma_le32(rate);
    lemma_le32(2 * rate);
    lemma_le32(2 * (s.len() as int));
    lemma_sample_bytes(s, i);
    let h = header(rate, s.len() as int);
    let f = h + sample_bytes(s);
    assert(h.len() == 44);
    assert forall|k: int| 0 <= k < 44 implies f[k] == h[k] by {}
    assert(f[44 + 2 * i] == sample_bytes(s)[2 * i]);
    assert(f[44 + 2 * i + 1] == sample_bytes(s)[2 * i + 1]);
}

proof fn lemma_sample_bytes(s: Seq<i16>, i: int)
    requires
        0 <= i < s.len(),
    ensures
        sample_bytes(s).len() == 2 * s.len(),
        sample_bytes(s)[2 * i] + 0x100 * sample_bytes(s)[2 * i + 1] == if s[i] < 0 {
            s[i] + 0x1_0000
        } else {
            s[i] as int
        },
    decreases s.len(),
{
    lemma_sample_bytes_len(s);
    lemma_sample_bytes_len(s.drop_last());
    if i < s.len() - 1 {
        lemma_sample_bytes(s.drop_last(), i);
        assert(s.drop_last()[i] == s[i]);
    }
}

} // verus!
