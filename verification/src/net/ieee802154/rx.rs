use vstd::prelude::*;
use crate::error_code::ErrorCode;
use crate::syscall::Outcome;

verus! {

/// Maximum length of a MAC frame.
pub const MAX_MTU: usize = 127;

/// The size of a frame in the shared buffer: three length bytes, then the
/// body.
pub const FRAME_SIZE: usize = 130;

/// The two index bytes that come before the frames in the shared buffer.
pub const INDEX_SIZE: usize = 2;

/// A received frame.
#[derive(Clone, Copy, Debug)]
pub struct Frame {
    pub header_len: u8,
    pub payload_len: u8,
    pub mic_len: u8,
    pub body: [u8; 127],
}

/// Where frame `i` starts in the shared buffer.
pub open spec fn frame_offset(i: int) -> int {
    INDEX_SIZE + FRAME_SIZE * i
}

/// The frame read out of slot `i` of a buffer's bytes.
pub open spec fn frame_is(f: Frame, bytes: Seq<u8>, i: int) -> bool {
    let o = frame_offset(i);
    &&& f.header_len == bytes[o]
    &&& f.payload_len == bytes[o + 1]
    &&& f.mic_len == bytes[o + 2]
    &&& f.body@ == bytes.subrange(o + 3, o + FRAME_SIZE)
}

/// The ring buffer that the kernel fills with received frames and that the
/// process reads. It is the bytes shared with the kernel: the index of the
/// next frame to read (updated by the process only), the index where the
/// kernel writes the next frame (updated by the kernel only), then `N` frame
/// slots. An empty buffer cannot be told from a full one, so the kernel uses
/// at most `N - 1` slots before it overwrites old frames.
pub struct RxRingBuffer<const N: usize> {
    bytes: Vec<u8>,
}

impl<const N: usize> View for RxRingBuffer<N> {
    type V = Seq<u8>;

    closed spec fn view(&self) -> Seq<u8> {
        self.bytes@
    }
}

impl<const N: usize> RxRingBuffer<N> {
    /// The buffer holds its two indices and `N` frames.
    pub open spec fn wf(&self) -> bool {
        self@.len() == INDEX_SIZE + FRAME_SIZE * N
    }

    pub open spec fn read_index(&self) -> u8 {
        self@[0]
    }

    pub open spec fn write_index(&self) -> u8 {
        self@[1]
    }

    /// Reading the next frame is defined: its slot exists, and the index can
    /// move on without overflow and modulo a nonzero 8-bit capacity.
    pub open spec fn can_read(&self) -> bool {
        &&& self.wf()
        &&& self.read_index() < N
        &&& self.read_index() < 255
        &&& N as int % 256 != 0
    }

    /// The bytes once the read index moved past the frame it pointed to.
    pub open spec fn advanced(&self) -> Seq<u8> {
        self@.update(0, ((self.read_index() + 1) % (N as int % 256)) as u8)
    }

    /// A buffer with both indices and every frame zeroed.
    pub fn new() -> (b: Self)
        requires
            INDEX_SIZE + FRAME_SIZE * N <= usize::MAX,
        ensures
            b.wf(),
            b@ == Seq::new((INDEX_SIZE + FRAME_SIZE * N) as nat, |i: int| 0u8),
    {
        let len: usize = INDEX_SIZE + FRAME_SIZE * N;
        let mut bytes: Vec<u8> = Vec::new();
        while bytes.len() < len
            invariant
                bytes@.len() <= len,
                forall|i: int| 0 <= i < bytes@.len() ==> bytes@[i] == 0u8,
            decreases len - bytes@.len(),
        {
            bytes.push(0u8);
        }
        let b = RxRingBuffer { bytes };
        assert(b@ =~= Seq::new((INDEX_SIZE + FRAME_SIZE * N) as nat, |i: int| 0u8));
        b
    }

    /// The bytes to share with the kernel.
    pub fn as_mut_byte_slice(&mut self) -> (s: &mut [u8])
        ensures
            s@ == old(self)@,
            final(self)@ == final(s)@,
    {
        self.bytes.as_mut_slice()
    }

    /// Whether a frame waits to be read: the indices differ.
    pub fn has_frame(&self) -> (b: bool)
        requires
            self.wf(),
        ensures
            b == (self.read_index() != self.write_index()),
    {
        self.bytes[0] != self.bytes[1]
    }

    /// Reads the frame at the read index and moves the index on, modulo the
    /// capacity cut to 8 bits.
    pub fn next_frame(&mut self) -> (f: Frame)
        requires
            old(self).can_read(),
        ensures
            frame_is(f, old(self)@, old(self).read_index() as int),
            final(self)@ == old(self).advanced(),
            final(self).wf(),
    {
        let r = self.bytes[0];
        let o: usize = INDEX_SIZE + FRAME_SIZE * (r as usize);
        let mut body = [0u8; 127];
        let mut j: usize = 0;
        while j < MAX_MTU
            invariant
                self.wf(),
                self@ == old(self)@,
                r == old(self).read_index(),
                o == frame_offset(r as int),
                o + FRAME_SIZE <= self@.len(),
                j <= MAX_MTU,
                forall|k: int| 0 <= k < j ==> body@[k] == self@[o + 3 + k],
            decreases MAX_MTU - j,
        {
            body[j] = self.bytes[o + 3 + j];
            j = j + 1;
        }
        let f = Frame {
            header_len: self.bytes[o],
            payload_len: self.bytes[o + 1],
            mic_len: self.bytes[o + 2],
            body,
        };
        assert(f.body@ =~= old(self)@.subrange(o + 3, o + FRAME_SIZE));
        let n: usize = N;
        let n8 = (n & 0xff) as u8;
        assert(n8 as int == n as int % 256) by (bit_vector)
            requires
                n8 == (n & 0xff) as u8,
        ;

        self.bytes.set(0, (r + 1) % n8);
        f
    }
}

/// Reading a frame leaves the buffer readable: the read index moves within
/// the capacity cut to 8 bits, which is at most the capacity and below 255.
pub proof fn lemma_next_frame_keeps_readable<const N: usize>(b: RxRingBuffer<N>, after: RxRingBuffer<N>)
    requires
        b.can_read(),
        after@ == b.advanced(),
    ensures
        after.can_read(),
        after.write_index() == b.write_index(),
{
}

/// A new buffer holds no frame, and it is readable when its capacity cut to
/// 8 bits is not 0.
pub proof fn lemma_new_buffer_empty<const N: usize>(b: RxRingBuffer<N>)
    requires
        b.wf(),
        b@ == Seq::new((INDEX_SIZE + FRAME_SIZE * N) as nat, |i: int| 0u8),
    ensures
        b.read_index() == b.write_index(),
        N > 0 && N as int % 256 != 0 ==> b.can_read(),
{
}

/// The bytes of slot `i`: its three length bytes, then its body.
pub open spec fn slot_bytes(bytes: Seq<u8>, i: int) -> Seq<u8> {
    bytes.subrange(frame_offset(i), frame_offset(i) + FRAME_SIZE)
}

/// What the kernel does with a frame it receives while the buffer has room:
/// it writes the frame's slot bytes at the write index, then moves the write
/// index on, modulo the capacity `n`.
pub open spec fn kernel_wrote(bytes: Seq<u8>, n: int, frame: Seq<u8>) -> Seq<u8> {
    let o = frame_offset(bytes[1] as int);
    Seq::new(
        bytes.len(),
        |j: int|
            if j == 1 {
                ((bytes[1] + 1) % n) as u8
            } else if o <= j < o + FRAME_SIZE {
                frame[j - o]
            } else {
                bytes[j]
            },
    )
}

/// The bytes once the kernel wrote each of `frames`, in order.
pub open spec fn all_written(bytes: Seq<u8>, n: int, frames: Seq<Seq<u8>>) -> Seq<u8>
    decreases frames.len(),
{
    if frames.len() == 0 {
        bytes
    } else {
        kernel_wrote(all_written(bytes, n, frames.drop_last()), n, frames.last())
    }
}

/// The bytes once the process read `i` frames: its read index moved on `i`
/// times, modulo the capacity `n`.
pub open spec fn read_on(bytes: Seq<u8>, n: int, i: nat) -> Seq<u8>
    decreases i,
{
    if i == 0 {
        bytes
    } else {
        let b = read_on(bytes, n, (i - 1) as nat);
        b.update(0, ((b[0] + 1) % n) as u8)
    }
}

/// Two positions fewer than `n` apart fall in different slots of a ring of
/// `n` slots.
proof fn lemma_ring_distinct(start: int, i: int, k: int, n: int)
    requires
        0 <= start,
        0 <= i < k,
        k - i < n,
    ensures
        (start + i) % n != (start + k) % n,
{
    let a = start + i;
    let b = start + k;
    vstd::arithmetic::div_mod::lemma_fundamental_div_mod(a, n);
    vstd::arithmetic::div_mod::lemma_fundamental_div_mod(b, n);
    let qa = a / n;
    let qb = b / n;
    if a % n == b % n {
        let m = a % n;
        assert(false) by (nonlinear_arith)
            requires
                a == n * qa + m,
                b == n * qb + m,
                0 < b - a < n,
                n > 0,
        ;
    }
}

/// A position moved on by one, modulo `n`.
proof fn lemma_ring_step(start: int, i: int, n: int)
    requires
        0 < n,
    ensures
        ((start + i) % n + 1) % n == (start + i + 1) % n,
{
    vstd::arithmetic::div_mod::lemma_add_mod_noop_right(1, start + i, n);
}

/// What the kernel's writes leave: the read index as it was, the write index
/// moved on once per frame, and frame `i` in the `i`-th slot after the first
/// write index.
proof fn lemma_all_written(bytes: Seq<u8>, n: int, frames: Seq<Seq<u8>>)
    requires
        0 < n < 256,
        bytes.len() == INDEX_SIZE + FRAME_SIZE * n,
        bytes[1] < n,
        frames.len() < n,
        forall|i: int| 0 <= i < frames.len() ==> #[trigger] frames[i].len() == FRAME_SIZE,
    ensures
        ({
            let w = all_written(bytes, n, frames);
            &&& w.len() == bytes.len()
            &&& w[0] == bytes[0]
            &&& w[1] == (bytes[1] + frames.len()) % n
            &&& forall|i: int|
                0 <= i < frames.len() ==> #[trigger] slot_bytes(w, (bytes[1] + i) % n) == frames[i]
        }),
    decreases frames.len(),
{
    if frames.len() == 0 {
        vstd::arithmetic::div_mod::lemma_small_mod(bytes[1] as nat, n as nat);
    } else {
        let k = frames.len() - 1;
        let prev_frames = frames.drop_last();
        lemma_all_written(bytes, n, prev_frames);
        let prev = all_written(bytes, n, prev_frames);
        let w = all_written(bytes, n, frames);
        let s = prev[1] as int;
        let o = frame_offset(s);
        assert(s == (bytes[1] + k) % n);
        lemma_ring_step(bytes[1] as int, k, n);
        assert(w[1] == (bytes[1] + frames.len()) % n);
        assert(slot_bytes(w, s) =~= frames[k]);
        assert forall|i: int| 0 <= i < frames.len() implies #[trigger] slot_bytes(w, (bytes[1] + i) % n)
            == frames[i] by {
            if i < k {
                let t = (bytes[1] + i) % n;
                lemma_ring_distinct(bytes[1] as int, i, k, n);
                assert(prev_frames[i] == frames[i]);
                assert(slot_bytes(prev, t) == prev_frames[i]);
                assert(slot_bytes(w, t) =~= slot_bytes(prev, t));
            }
        }
    }
}

/// What the process's reads leave: the read index moved on once per read,
/// and every other byte as it was.
proof fn lemma_read_on(bytes: Seq<u8>, n: int, i: nat)
    requires
        0 < n < 256,
        bytes.len() >= INDEX_SIZE,
        bytes[0] < n,
    ensures
        read_on(bytes, n, i).len() == bytes.len(),
        read_on(bytes, n, i)[0] == (bytes[0] + i) % n,
        forall|j: int| 1 <= j < bytes.len() ==> #[trigger] read_on(bytes, n, i)[j] == bytes[j],
    decreases i,
{
    if i == 0 {
        vstd::arithmetic::div_mod::lemma_small_mod(bytes[0] as nat, n as nat);
    } else {
        let prev = read_on(bytes, n, (i - 1) as nat);
        lemma_read_on(bytes, n, (i - 1) as nat);
        lemma_ring_step(bytes[0] as int, i - 1, n);
        let v = (prev[0] + 1) % n;
        assert(0 <= v < 256);
        assert(read_on(bytes, n, i)[0] == v);
    }
}

/// Frames come out in the order the kernel wrote them. Into a buffer with no
/// frame waiting, the kernel writes fewer frames than the buffer has slots;
/// after `i` reads the buffer holds a frame, which is the `i`-th written,
/// until every written frame was read, and then it holds none. The capacity
/// is below 256, as the indices are bytes.
pub proof fn lemma_frames_read_in_order<const N: usize>(b: RxRingBuffer<N>, frames: Seq<Seq<u8>>)
    requires
        b.wf(),
        0 < N < 256,
        b.read_index() < N,
        b.read_index() == b.write_index(),
        frames.len() < N,
        forall|i: int| 0 <= i < frames.len() ==> #[trigger] frames[i].len() == FRAME_SIZE,
    ensures
        forall|i: nat|
            i < frames.len() ==> {
                let r = #[trigger] read_on(all_written(b@, N as int, frames), N as int, i);
                &&& r[0] != r[1]
                &&& r[0] < N
                &&& slot_bytes(r, r[0] as int) == frames[i as int]
            },
        ({
            let r = read_on(all_written(b@, N as int, frames), N as int, frames.len());
            r[0] == r[1]
        }),
{
    let n = N as int;
    let w = all_written(b@, n, frames);
    lemma_all_written(b@, n, frames);
    let start = b.read_index() as int;
    assert forall|i: nat| i < frames.len() implies {
        let r = #[trigger] read_on(w, n, i);
        &&& r[0] != r[1]
        &&& r[0] < N
        &&& slot_bytes(r, r[0] as int) == frames[i as int]
    } by {
        lemma_read_on(w, n, i);
        let r = read_on(w, n, i);
        lemma_ring_distinct(start, i as int, frames.len() as int, n);
        assert(r[1] == w[1]);
        let t = (start + i) % n;
        assert(slot_bytes(r, t) =~= slot_bytes(w, t));
    }
    lemma_read_on(w, n, frames.len());
    let r = read_on(w, n, frames.len());
    assert(r[1] == w[1]);
}

/// Reading a frame moves the read index as `read_on` does for one read, when
/// the capacity is below 256.
pub proof fn lemma_advanced_is_one_read<const N: usize>(b: RxRingBuffer<N>)
    requires
        b.wf(),
        0 < N < 256,
    ensures
        b.advanced() == read_on(b@, N as int, 1),
{
    assert(N as int % 256 == N as int);
    assert(read_on(b@, N as int, 0) == b@);
}

/// An operator that receives frames through one ring buffer.
pub trait RxOperator {
    /// The operator can read a frame without fault.
    spec fn ready(&self) -> bool;

    /// The bytes of the ring buffer the operator reads: the read index, the
    /// write index, then the frame slots.
    spec fn ring(&self) -> Seq<u8>;

    /// The ring's bytes once the read index moved past the frame it points to.
    spec fn ring_advanced(&self) -> Seq<u8>;

    /// A frame exactly when one is waiting to be read (the indices differ):
    /// the one at the read index, which then moves on. With none, nothing
    /// changes, and the caller waits for the kernel to signal one and then
    /// takes it.
    fn receive_frame(&mut self) -> (r: Option<Frame>)
        requires
            old(self).ready(),
        ensures
            old(self).ring()[0] != old(self).ring()[1] ==> (r matches Some(f) && frame_is(
                f,
                old(self).ring(),
                old(self).ring()[0] as int,
            ) && final(self).ring() == old(self).ring_advanced()),
            old(self).ring()[0] == old(self).ring()[1] ==> r is None && final(self).ring() == old(
                self,
            ).ring(),
    ;
}

/// Receives frames from the kernel through a single ring buffer. While the
/// buffer is not shared, as when the process reads it, frames that arrive are
/// lost.
pub struct RxSingleBufferOperator<const N: usize> {
    pub buf: RxRingBuffer<N>,
}

impl<const N: usize> RxSingleBufferOperator<N> {
    pub fn new(buf: RxRingBuffer<N>) -> (op: Self)
        ensures
            op.buf@ == buf@,
    {
        RxSingleBufferOperator { buf }
    }

    /// Takes the frame that the kernel signalled once the wait for it is
    /// over; a failed wait gives its error.
    pub fn frame_after_wait(&mut self, o: Outcome<u32>) -> (r: Result<Frame, ErrorCode>)
        requires
            old(self).buf.can_read(),
        ensures
            match o {
                Outcome::ShareFailed(e) => r == Err::<Frame, ErrorCode>(e) && final(self).buf@ == old(self).buf@,
                Outcome::Failed(e) => r == Err::<Frame, ErrorCode>(e) && final(self).buf@ == old(self).buf@,
                Outcome::Done(_, _) => r matches Ok(f) && frame_is(f, old(self).buf@, old(self).buf.read_index() as int)
                    && final(self).buf@ == old(self).buf.advanced(),
            },
    {
        match o {
            Outcome::ShareFailed(e) => Err(e),
            Outcome::Failed(e) => Err(e),
            Outcome::Done(_, _) => Ok(self.buf.next_frame()),
        }
    }
}

impl<const N: usize> RxOperator for RxSingleBufferOperator<N> {
    open spec fn ready(&self) -> bool {
        self.buf.can_read()
    }

    open spec fn ring(&self) -> Seq<u8> {
        self.buf@
    }

    open spec fn ring_advanced(&self) -> Seq<u8> {
        self.buf.advanced()
    }

    /// The frame at the read index if the buffer holds one.
    fn receive_frame(&mut self) -> (r: Option<Frame>) {
        if self.buf.has_frame() {
            Some(self.buf.next_frame())
        } else {
            None
        }
    }
}

} // verus!
