//! A multichannel audio sample of at most eight channels.
//!
//! Each slot holds one channel's value as the bit pattern of a 32-bit
//! IEEE-754 number. The library moves these words around and hands them to
//! caller-supplied functions; it never interprets them.

use vstd::prelude::*;

verus! {

/// Number of slots in a frame, and so the largest channel count.
pub const MAX_CHANNELS: usize = 8;

/// One point in time across all channels.
///
/// Only the first `channels()` slots are meaningful. A frame made by
/// `from_slice` holds zero in the others.
#[derive(Debug, Clone, Copy)]
pub struct AudioSample {
    channels: u8,
    data: [u32; 8],
}

impl View for AudioSample {
    type V = Seq<u32>;

    /// The meaningful values: the first `channels()` slots.
    closed spec fn view(&self) -> Seq<u32> {
        self.data@.take(self.channels as int)
    }
}

impl AudioSample {
    #[verifier::type_invariant]
    spec fn inv(self) -> bool {
        self.channels <= 8
    }

    /// All eight slots, meaningful or not.
    pub closed spec fn slots(&self) -> Seq<u32> {
        self.data@
    }

    /// The channel count as a mathematical value.
    pub closed spec fn channel_count(&self) -> nat {
        self.channels as nat
    }

    /// A frame is valid when its channel count fits its slots. Every frame
    /// the library hands out is valid.
    pub open spec fn valid(&self) -> bool {
        self.channel_count() <= 8
    }

    /// How the view, the slots and the channel count of a frame relate.
    pub proof fn lemma_shape(self)
        ensures
            self.slots().len() == 8,
            self.valid() ==> self@ == self.slots().take(self.channel_count() as int),
            self.valid() ==> self@.len() == self.channel_count(),
    {
    }

    /// Builds a frame from at most eight channel values. A longer slice is
    /// no input of this function: a frame has no room for more, and no
    /// value is ever left out to make the rest fit.
    pub fn from_slice(slice: &[u32]) -> (sample: Self)
        requires
            slice@.len() <= 8,
        ensures
            sample@ == slice@,
            sample.channel_count() == slice@.len(),
            sample.valid(),
            sample.slots() == slice@ + Seq::new((8 - slice@.len()) as nat, |i: int| 0u32),
    {
        let mut data: [u32; 8] = [0u32; 8];
        let n: usize = slice.len();
        let mut i: usize = 0;
        while i < n
            invariant
                n == slice@.len(),
                n <= 8,
                i <= n,
                forall|k: int| 0 <= k < i ==> data@[k] == slice@[k],
                forall|k: int| i <= k < 8 ==> data@[k] == 0u32,
            decreases n - i,
        {
            data[i] = slice[i];
            i += 1;
        }
        let sample = AudioSample { channels: n as u8, data };
        assert(sample@ =~= slice@);
        assert(sample.slots() =~= slice@ + Seq::new((8 - slice@.len()) as nat, |i: int| 0u32));
        sample
    }

    /// Number of meaningful channels.
    pub fn channels(&self) -> (n: usize)
        ensures
            n == self.channel_count(),
            n <= 8,
            self.valid(),
    {
        proof {
            use_type_invariant(self);
        }
        self.channels as usize
    }

    /// Copies the first `slice.len()` slots into `slice`.
    pub fn write_slice(&self, slice: &mut [u32])
        requires
            old(slice)@.len() <= 8,
        ensures
            final(slice)@ == self.slots().take(old(slice)@.len() as int),
    {
        let n: usize = slice.len();
        let mut i: usize = 0;
        while i < n
            invariant
                n <= 8,
                i <= n,
                slice@.len() == n,
                forall|k: int| 0 <= k < i ==> slice@[k] == self.data@[k],
            decreases n - i,
        {
            slice[i] = self.data[i];
            i += 1;
        }
        assert(slice@ =~= self.slots().take(n as int));
    }

    /// Writes `convert(value)` of slot `i` into `slice[i]`, for every index
    /// of `slice`.
    pub fn write_slice_convert<T, F: Fn(u32) -> T>(&self, slice: &mut [T], convert: F)
        requires
            old(slice)@.len() <= 8,
            forall|k: int|
                0 <= k < old(slice)@.len() ==> call_requires(convert, (#[trigger] self.slots()[k],)),
        ensures
            final(slice)@.len() == old(slice)@.len(),
            forall|k: int|
                0 <= k < old(slice)@.len() ==> call_ensures(
                    convert,
                    (self.slots()[k],),
                    #[trigger] final(slice)@[k],
                ),
    {
        let n: usize = slice.len();
        let mut i: usize = 0;
        while i < n
            invariant
                n <= 8,
                i <= n,
                slice@.len() == n,
                forall|k: int| 0 <= k < n ==> call_requires(convert, (#[trigger] self.slots()[k],)),
                forall|k: int|
                    0 <= k < i ==> call_ensures(convert, (self.slots()[k],), #[trigger] slice@[k]),
            decreases n - i,
        {
            assert(call_requires(convert, (self.slots()[i as int],)));
            let value = convert(self.data[i]);
            slice[i] = value;
            i += 1;
        }
    }

    /// Returns the frame obtained by applying `processor` to each
    /// meaningful slot. The channel count and the other slots are kept.
    pub fn apply_process<F: Fn(u32) -> u32>(&self, processor: F) -> (sample: Self)
        requires
            forall|k: int|
                0 <= k < self.channel_count() ==> call_requires(
                    processor,
                    (#[trigger] self.slots()[k],),
                ),
        ensures
            sample.channel_count() == self.channel_count(),
            sample.valid(),
            forall|k: int|
                0 <= k < self.channel_count() ==> call_ensures(
                    processor,
                    (self.slots()[k],),
                    #[trigger] sample.slots()[k],
                ),
            forall|k: int|
                self.channel_count() <= k < 8 ==> #[trigger] sample.slots()[k] == self.slots()[k],
    {
        proof {
            use_type_invariant(self);
        }
        let n: usize = self.channels as usize;
        let mut data: [u32; 8] = self.data;
        let mut i: usize = 0;
        while i < n
            invariant
                n == self.channels,
                n <= 8,
                i <= n,
                forall|k: int|
                    0 <= k < n ==> call_requires(processor, (#[trigger] self.slots()[k],)),
                forall|k: int|
                    0 <= k < i ==> call_ensures(processor, (self.data@[k],), #[trigger] data@[k]),
                forall|k: int| i <= k < 8 ==> data@[k] == self.data@[k],
            decreases n - i,
        {
            assert(call_requires(processor, (self.slots()[i as int],)));
            let value: u32 = processor(data[i]);
            data[i] = value;
            i += 1;
        }
        AudioSample { channels: self.channels, data }
    }

    /// The first slot.
    pub fn ch1(&self) -> (value: u32)
        ensures
            value == self.slots()[0],
    {
        self.data[0]
    }

    /// The second slot.
    pub fn ch2(&self) -> (value: u32)
        ensures
            value == self.slots()[1],
    {
        self.data[1]
    }

    /// The third slot.
    pub fn ch3(&self) -> (value: u32)
        ensures
            value == self.slots()[2],
    {
        self.data[2]
    }

    /// The fourth slot.
    pub fn ch4(&self) -> (value: u32)
        ensures
            value == self.slots()[3],
    {
        self.data[3]
    }

    /// The fifth slot.
    pub fn ch5(&self) -> (value: u32)
        ensures
            value == self.slots()[4],
    {
        self.data[4]
    }

    /// The sixth slot.
    pub fn ch6(&self) -> (value: u32)
        ensures
            value == self.slots()[5],
    {
        self.data[5]
    }

    /// The seventh slot.
    pub fn ch7(&self) -> (value: u32)
        ensures
            value == self.slots()[6],
    {
        self.data[6]
    }

    /// The eighth slot.
    pub fn ch8(&self) -> (value: u32)
        ensures
            value == self.slots()[7],
    {
        self.data[7]
    }
}

impl Default for AudioSample {
    /// The frame of no channels, with every slot zero.
    fn default() -> (sample: Self)
        ensures
            sample@ == Seq::<u32>::empty(),
            sample.channel_count() == 0,
            sample.slots() == Seq::new(8, |i: int| 0u32),
    {
        let sample = AudioSample { channels: 0, data: [0u32; 8] };
        assert(sample@ =~= Seq::<u32>::empty());
        assert(sample.slots() =~= Seq::new(8, |i: int| 0u32));
        sample
    }
}

/// Number of whole frame slots in a buffer of `len` interleaved samples.
pub open spec fn slot_count(len: int, channels: int) -> int {
    len / channels
}

/// The samples of output frame slot `k` in a buffer of interleaved samples.
pub open spec fn frame_slot<T>(data: Seq<T>, channels: int, k: int) -> Seq<T> {
    data.subrange(k * channels, (k + 1) * channels)
}

/// Slot `j` ends where or before a later slot `k` begins.
pub proof fn lemma_slot_order(j: int, k: int, channels: int)
    requires
        0 <= j < k,
        0 < channels,
    ensures
        0 <= j * channels,
        (j + 1) * channels == j * channels + channels,
        (j + 1) * channels <= k * channels,
        (k + 1) * channels == k * channels + channels,
{
    assert((j + 1) * channels == j * channels + channels) by (nonlinear_arith);
    assert(0 <= j * channels) by (nonlinear_arith)
        requires
            0 <= j,
            0 < channels,
    ;
    assert((j + 1) * channels <= k * channels) by (nonlinear_arith)
        requires
            j + 1 <= k,
            0 < channels,
    ;
    assert((k + 1) * channels == k * channels + channels) by (nonlinear_arith);
}

/// Every whole slot of a buffer of `len` samples lies inside the buffer.
pub proof fn lemma_slot_count(len: int, channels: int, k: int)
    requires
        0 < channels,
        0 <= len,
        0 <= k < len / channels,
    ensures
        0 <= k * channels,
        k * channels + channels <= (len / channels) * channels,
        (len / channels) * channels <= len,
{
    assert((len / channels) * channels <= len) by (nonlinear_arith)
        requires
            0 < channels,
            0 <= len,
    ;
    assert(k * channels + channels <= (len / channels) * channels) by (nonlinear_arith)
        requires
            0 <= k,
            k + 1 <= len / channels,
            0 < channels,
    ;
    assert(0 <= k * channels) by (nonlinear_arith)
        requires
            0 <= k,
            0 < channels,
    ;
}

} // verus!
