//! Adapting a finite PCM buffer into the frames that the producer publishes:
//! fixed-size chunks, and the real-time duration of each.
use vstd::prelude::*;

verus! {

/// The chunk size the file source uses: 32 KiB.
pub const FILE_CHUNK_BYTES: usize = 32768;

/// `data` cut into consecutive chunks of `size` bytes; the last may be shorter.
pub open spec fn chunks_of(data: Seq<u8>, size: nat) -> Seq<Seq<u8>>
    decreases data.len(),
{
    if size == 0 || data.len() == 0 {
        Seq::empty()
    } else if data.len() <= size {
        seq![data]
    } else {
        seq![data.take(size as int)] + chunks_of(data.skip(size as int), size)
    }
}

/// The total length of a sequence of frames.
pub open spec fn total_len(fs: Seq<Seq<u8>>) -> nat
    decreases fs.len(),
{
    if fs.len() == 0 {
        0
    } else {
        fs[0].len() + total_len(fs.drop_first())
    }
}

/// The chunks of a buffer are non-empty, at most `size` long, and join back
/// into the buffer; so their lengths add up to its length.
pub proof fn lemma_chunks_cover(data: Seq<u8>, size: nat)
    requires
        size >= 1,
    ensures
        chunks_of(data, size).flatten() == data,
        total_len(chunks_of(data, size)) == data.len(),
        forall|i: int|
            0 <= i < chunks_of(data, size).len() ==> 1 <= (#[trigger] chunks_of(data, size)[i]).len()
                <= size,
    decreases data.len(),
{
    let cs = chunks_of(data, size);
    if data.len() == 0 {
    } else if data.len() <= size {
        assert(cs.drop_first() =~= Seq::<Seq<u8>>::empty());
        assert(cs.flatten() == cs[0] + cs.drop_first().flatten());
        assert(total_len(cs.drop_first()) == 0);
        assert(data + Seq::<u8>::empty() =~= data);
    } else {
        let rest = chunks_of(data.skip(size as int), size);
        lemma_chunks_cover(data.skip(size as int), size);
        assert(cs.drop_first() =~= rest);
        assert(cs[0] == data.take(size as int));
        assert(data.take(size as int) + data.skip(size as int) =~= data);
        assert forall|i: int| 0 <= i < cs.len() implies 1 <= (#[trigger] cs[i]).len() <= size by {
            if i > 0 {
                assert(cs[i] == rest[i - 1]);
            }
        }
    }
}

/// Cuts `data` into chunks of `chunk_size` bytes, in order; the last chunk
/// holds what remains.
pub fn split_into_chunks(data: &Vec<u8>, chunk_size: usize) -> (r: Vec<Vec<u8>>)
    requires
        chunk_size >= 1,
    ensures
        r@.map_values(|c: Vec<u8>| c@) == chunks_of(data@, chunk_size as nat),
{
    let mut out: Vec<Vec<u8>> = Vec::new();
    let mut offset: usize = 0;
    let ghost size = chunk_size as nat;
    assert(data@.skip(0) =~= data@);
    assert(out@.map_values(|c: Vec<u8>| c@) + chunks_of(data@, size) =~= chunks_of(data@, size));
    while offset < data.len()
        invariant
            chunk_size >= 1,
            size == chunk_size as nat,
            offset <= data@.len(),
            out@.map_values(|c: Vec<u8>| c@) + chunks_of(data@.skip(offset as int), size) == chunks_of(
                data@,
                size,
            ),
        decreases data@.len() - offset,
    {
        let end: usize = if data.len() - offset > chunk_size {
            offset + chunk_size
        } else {
            data.len()
        };
        let mut chunk: Vec<u8> = Vec::new();
        let mut j: usize = offset;
        while j < end
            invariant
                offset <= j <= end,
                end <= data@.len(),
                chunk@ == data@.subrange(offset as int, j as int),
            decreases end - j,
        {
            chunk.push(data[j]);
            j = j + 1;
            assert(chunk@ =~= data@.subrange(offset as int, j as int));
        }
        proof {
            let rest = data@.skip(offset as int);
            if end == data@.len() {
                assert(rest.len() <= size);
                assert(chunk@ =~= rest);
                assert(data@.skip(end as int) =~= Seq::<u8>::empty());
                assert(chunks_of(rest, size) == seq![rest]);
                assert(chunks_of(data@.skip(end as int), size) =~= Seq::<Seq<u8>>::empty());
            } else {
                assert(chunk@ =~= rest.take(size as int));
                assert(rest.skip(size as int) =~= data@.skip(end as int));
            }
        }
        let ghost prev = out@.map_values(|c: Vec<u8>| c@);
        out.push(chunk);
        assert(out@.map_values(|c: Vec<u8>| c@) =~= prev.push(chunk@));
        assert(prev.push(chunk@) + chunks_of(data@.skip(end as int), size) =~= prev + (seq![chunk@]
            + chunks_of(data@.skip(end as int), size)));
        offset = end;
    }
    assert(data@.skip(offset as int) =~= Seq::<u8>::empty());
    assert(out@.map_values(|c: Vec<u8>| c@) + Seq::<Seq<u8>>::empty() =~= out@.map_values(
        |c: Vec<u8>| c@,
    ));
    out
}

/// How long `len` bytes of 16-bit PCM last at `sample_rate` Hz over
/// `channels` channels, in whole milliseconds.
pub open spec fn pcm_duration_ms(len: nat, sample_rate: nat, channels: nat) -> nat {
    (len / (2 * channels)) * 1000 / sample_rate
}

/// The real-time duration of one chunk: the pause a paced file source takes
/// after publishing it. Saturates at `u64::MAX`.
pub fn chunk_duration_ms(len: u64, sample_rate: u32, channels: u16) -> (r: u64)
    requires
        sample_rate >= 1,
        channels >= 1,
    ensures
        r == if pcm_duration_ms(len as nat, sample_rate as nat, channels as nat) > u64::MAX {
            u64::MAX as nat
        } else {
            pcm_duration_ms(len as nat, sample_rate as nat, channels as nat)
        },
{
    let frames: u128 = len as u128 / (2 * channels as u128);
    assert(frames <= u64::MAX) by {
        let l = len as int;
        let d = 2 * channels as int;
        assert(l / d <= l) by (nonlinear_arith)
            requires
                l >= 0,
                d >= 1,
        ;
    }
    let ms: u128 = frames * 1000 / sample_rate as u128;
    if ms > u64::MAX as u128 {
        u64::MAX
    } else {
        ms as u64
    }
}

/// The little-endian bytes of 16-bit samples, two per sample, low byte first.
pub open spec fn pcm16_le(samples: Seq<i16>) -> Seq<u8> {
    Seq::new(
        2 * samples.len(),
        |k: int|
            if k % 2 == 0 {
                ((samples[k / 2] as u16) % 256) as u8
            } else {
                ((samples[k / 2] as u16) / 256) as u8
            },
    )
}

/// Encodes 16-bit samples as little-endian PCM bytes, the frame format.
pub fn pcm16_le_bytes(samples: &Vec<i16>) -> (r: Vec<u8>)
    requires
        samples@.len() * 2 <= usize::MAX,
    ensures
        r@ == pcm16_le(samples@),
{
    let mut out: Vec<u8> = Vec::new();
    let mut i: usize = 0;
    while i < samples.len()
        invariant
            i <= samples@.len(),
            out@.len() == 2 * i,
            forall|k: int| 0 <= k < 2 * i ==> #[trigger] out@[k] == pcm16_le(samples@)[k],
        decreases samples@.len() - i,
    {
        let u = samples[i] as u16;
        out.push((u % 256) as u8);
        out.push((u / 256) as u8);
        assert forall|k: int| 0 <= k < 2 * (i + 1) implies #[trigger] out@[k] == pcm16_le(samples@)[k] by {
            if k >= 2 * i {
                assert(k / 2 == i as int);
            }
        }
        i = i + 1;
    }
    assert(out@ =~= pcm16_le(samples@));
    out
}

} // verus!
