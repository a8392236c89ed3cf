//! Ring buffer of decoded samples shared between the decoder and the audio
//! output callback, together with the stream flags that coordinate them.

use vstd::prelude::*;

verus! {

/// How many of `incoming` items fit when `room` slots are free.
pub open spec fn accepted(room: nat, incoming: nat) -> nat {
    if incoming <= room {
        incoming
    } else {
        room
    }
}

/// Shared state between a decoder and the audio output: a ring buffer of
/// samples (one slot is always kept free) plus the flags of the current stream.
pub struct AudioState<T> {
    buffer: Vec<T>,
    write_pos: usize,
    read_pos: usize,
    playing: bool,
    finished: bool,
    should_stop: bool,
    generation: u64,
}

impl<T: Copy> View for AudioState<T> {
    type V = Seq<T>;

    /// The samples waiting to be read, oldest first.
    closed spec fn view(&self) -> Seq<T> {
        Seq::new(self.queued_len(), |i: int| self.buffer@[self.slot(i)])
    }
}

impl<T: Copy> AudioState<T> {
    /// Number of slots of the ring.
    pub closed spec fn capacity(&self) -> nat {
        self.buffer@.len()
    }

    /// The raw contents of every slot of the ring.
    pub closed spec fn storage(&self) -> Seq<T> {
        self.buffer@
    }

    /// Well-formedness: both positions lie inside the ring.
    pub closed spec fn wf(&self) -> bool {
        &&& self.buffer@.len() == 0 ==> self.write_pos == 0 && self.read_pos == 0
        &&& self.buffer@.len() > 0 ==> self.write_pos < self.buffer@.len() && self.read_pos
            < self.buffer@.len()
    }

    /// Whether a stream is actively playing.
    pub closed spec fn is_playing(&self) -> bool {
        self.playing
    }

    /// Whether the data source of the current stream has ended.
    pub closed spec fn is_finished(&self) -> bool {
        self.finished
    }

    /// Whether the decoder of the current stream was told to stop.
    pub closed spec fn stop_requested(&self) -> bool {
        self.should_stop
    }

    /// Generation id of the current stream.
    pub closed spec fn current_generation(&self) -> u64 {
        self.generation
    }

    /// Whether a decoder of stream `generation` must stop: a stop was
    /// requested or a newer stream has begun.
    pub open spec fn decoder_stale(&self, generation: u64) -> bool {
        self.stop_requested() || self.current_generation() != generation
    }

    /// Slots that can still be written before the ring is full.
    pub open spec fn free_slots(&self) -> nat {
        if self.capacity() == 0 {
            0
        } else {
            (self.capacity() - 1 - self@.len()) as nat
        }
    }

    spec fn queued_len(&self) -> nat {
        if self.write_pos >= self.read_pos {
            (self.write_pos - self.read_pos) as nat
        } else {
            (self.buffer@.len() - self.read_pos + self.write_pos) as nat
        }
    }

    spec fn slot(&self, i: int) -> int {
        if self.read_pos + i < self.buffer@.len() {
            self.read_pos + i
        } else {
            self.read_pos + i - self.buffer@.len()
        }
    }

    proof fn lemma_view(&self)
        requires
            self.wf(),
        ensures
            self@.len() == self.queued_len(),
            self.capacity() > 0 ==> self@.len() < self.capacity(),
            self.capacity() == 0 ==> self@.len() == 0,
            forall|i: int| 0 <= i < self@.len() ==> #[trigger] self@[i] == self.buffer@[self.slot(i)],
            forall|i: int| 0 <= i < self@.len() ==> 0 <= #[trigger] self.slot(i) < self.capacity(),
    {
    }

    /// Creates a ring of `capacity` slots, every slot holding `fill`.
    pub fn new(capacity: usize, fill: T) -> (state: Self)
        ensures
            state.wf(),
            state.capacity() == capacity,
            state@.len() == 0,
            forall|i: int| 0 <= i < capacity ==> #[trigger] state.storage()[i] == fill,
            !state.is_playing(),
            !state.is_finished(),
            !state.stop_requested(),
            state.current_generation() == 0,
    {
        let mut buffer: Vec<T> = Vec::new();
        while buffer.len() < capacity
            invariant
                buffer.len() <= capacity,
                forall|i: int| 0 <= i < buffer.len() ==> #[trigger] buffer@[i] == fill,
            decreases capacity - buffer.len(),
        {
            buffer.push(fill);
        }
        AudioState {
            buffer,
            write_pos: 0,
            read_pos: 0,
            playing: false,
            finished: false,
            should_stop: false,
            generation: 0,
        }
    }

    /// Starts a new stream: bumps the generation (wrapping), overwrites every
    /// slot with `fill`, empties the ring and marks the stream as playing.
    /// Returns the new generation.
    pub fn begin_new_stream(&mut self, fill: T) -> (generation: u64)
        requires
            old(self).wf(),
        ensures
            final(self).wf(),
            final(self).capacity() == old(self).capacity(),
            final(self)@.len() == 0,
            forall|i: int| 0 <= i < final(self).capacity() ==> #[trigger] final(self).storage()[i] == fill,
            generation == old(self).current_generation().wrapping_add(1),
            final(self).current_generation() == generation,
            final(self).is_playing(),
            !final(self).is_finished(),
            !final(self).stop_requested(),
    {
        self.generation = self.generation.wrapping_add(1);
        let cap = self.buffer.len();
        let mut i: usize = 0;
        while i < cap
            invariant
                cap == self.buffer.len(),
                cap == old(self).buffer.len(),
                i <= cap,
                forall|j: int| 0 <= j < i ==> #[trigger] self.buffer@[j] == fill,
                self.generation == old(self).generation.wrapping_add(1),
            decreases cap - i,
        {
            self.buffer.set(i, fill);
            i = i + 1;
        }
        self.write_pos = 0;
        self.read_pos = 0;
        self.playing = true;
        self.finished = false;
        self.should_stop = false;
        self.generation
    }

    /// Number of samples that can be written before the ring is full.
    pub fn available_write(&self) -> (n: usize)
        requires
            self.wf(),
            self.capacity() > 0,
        ensures
            n == self.free_slots(),
            n + self@.len() == self.capacity() - 1,
    {
        proof {
            self.lemma_view();
        }
        let capacity = self.buffer.len();
        if self.write_pos >= self.read_pos {
            capacity - (self.write_pos - self.read_pos) - 1
        } else {
            self.read_pos - self.write_pos - 1
        }
    }

    /// Number of samples waiting to be read.
    pub fn available_read(&self) -> (n: usize)
        requires
            self.wf(),
        ensures
            n == self@.len(),
    {
        proof {
            self.lemma_view();
        }
        if self.write_pos >= self.read_pos {
            self.write_pos - self.read_pos
        } else {
            self.buffer.len() - self.read_pos + self.write_pos
        }
    }

    /// Appends one sample; the ring must have a free slot.
    fn push_one(&mut self, sample: T)
        requires
            old(self).wf(),
            old(self).capacity() > 0,
            old(self).free_slots() > 0,
        ensures
            final(self).wf(),
            final(self).capacity() == old(self).capacity(),
            final(self)@ == old(self)@.push(sample),
            final(self).is_playing() == old(self).is_playing(),
            final(self).is_finished() == old(self).is_finished(),
            final(self).stop_requested() == old(self).stop_requested(),
            final(self).current_generation() == old(self).current_generation(),
    {
        proof {
            self.lemma_view();
        }
        let w = self.write_pos;
        assert(w < self.buffer.len());
        self.buffer.set(w, sample);
        if w + 1 == self.buffer.len() {
            self.write_pos = 0;
        } else {
            self.write_pos = w + 1;
        }
        proof {
            let pre = *old(self);
            pre.lemma_view();
            self.lemma_view();
            assert(self.queued_len() == pre.queued_len() + 1);
            assert forall|i: int| 0 <= i < self@.len() implies #[trigger] self@[i] == pre@.push(
                sample,
            )[i] by {
                assert(self.slot(i) == pre.slot(i));
                if i < pre@.len() {
                    assert(pre.slot(i) != w);
                } else {
                    assert(pre.slot(i) == w);
                }
            }
            assert(self@ =~= pre@.push(sample));
        }
    }

    /// Removes and returns the oldest sample; the ring must not be empty.
    fn pop_one(&mut self) -> (sample: T)
        requires
            old(self).wf(),
            old(self)@.len() > 0,
        ensures
            final(self).wf(),
            final(self).capacity() == old(self).capacity(),
            final(self).storage() == old(self).storage(),
            sample == old(self)@[0],
            final(self)@ == old(self)@.drop_first(),
            final(self).is_playing() == old(self).is_playing(),
            final(self).is_finished() == old(self).is_finished(),
            final(self).stop_requested() == old(self).stop_requested(),
            final(self).current_generation() == old(self).current_generation(),
    {
        proof {
            self.lemma_view();
        }
        let r = self.read_pos;
        assert(r < self.buffer.len());
        let sample = self.buffer[r];
        if r + 1 == self.buffer.len() {
            self.read_pos = 0;
        } else {
            self.read_pos = r + 1;
        }
        proof {
            let pre = *old(self);
            pre.lemma_view();
            self.lemma_view();
            assert(self.queued_len() + 1 == pre.queued_len());
            assert forall|i: int| 0 <= i < self@.len() implies #[trigger] self@[i]
                == pre@.drop_first()[i] by {
                assert(self.slot(i) == pre.slot(i + 1));
            }
            assert(self@ =~= pre@.drop_first());
        }
        sample
    }

    /// Writes as many of `samples` as fit, in order, and returns how many
    /// were written.
    pub fn push_samples(&mut self, samples: &[T]) -> (written: usize)
        requires
            old(self).wf(),
            old(self).capacity() > 0 || samples@.len() == 0,
        ensures
            final(self).wf(),
            final(self).capacity() == old(self).capacity(),
            written == accepted(old(self).free_slots(), samples@.len()),
            final(self)@ == old(self)@ + samples@.take(written as int),
            final(self).is_playing() == old(self).is_playing(),
            final(self).is_finished() == old(self).is_finished(),
            final(self).stop_requested() == old(self).stop_requested(),
            final(self).current_generation() == old(self).current_generation(),
    {
        if samples.len() == 0 {
            proof {
                assert(samples@.take(0) =~= Seq::<T>::empty());
                assert(old(self)@ + samples@.take(0) =~= old(self)@);
            }
            return 0;
        }
        let room = self.available_write();
        let count = if samples.len() <= room {
            samples.len()
        } else {
            room
        };
        let mut written: usize = 0;
        while written < count
            invariant
                self.wf(),
                self.capacity() == old(self).capacity(),
                self.capacity() > 0,
                count <= samples@.len(),
                count == accepted(old(self).free_slots(), samples@.len()),
                written <= count,
                self@ == old(self)@ + samples@.take(written as int),
                self.is_playing() == old(self).is_playing(),
                self.is_finished() == old(self).is_finished(),
                self.stop_requested() == old(self).stop_requested(),
                self.current_generation() == old(self).current_generation(),
            decreases count - written,
        {
            proof {
                self.lemma_view();
            }
            let sample = samples[written];
            self.push_one(sample);
            proof {
                assert(samples@.take(written as int).push(sample) =~= samples@.take(
                    written + 1,
                ));
            }
            written = written + 1;
        }
        written
    }

    /// Moves up to `out.len()` of the oldest samples into the front of `out`
    /// and returns how many were moved; the rest of `out` is left as it was.
    pub fn pop_samples(&mut self, out: &mut [T]) -> (read: usize)
        requires
            old(self).wf(),
        ensures
            final(self).wf(),
            final(self).capacity() == old(self).capacity(),
            final(self).storage() == old(self).storage(),
            read == accepted(old(self)@.len(), old(out)@.len()),
            final(out)@ == old(self)@.take(read as int) + old(out)@.skip(read as int),
            final(self)@ == old(self)@.skip(read as int),
            final(self).is_playing() == old(self).is_playing(),
            final(self).is_finished() == old(self).is_finished(),
            final(self).stop_requested() == old(self).stop_requested(),
            final(self).current_generation() == old(self).current_generation(),
    {
        let waiting = self.available_read();
        let count = if out.len() <= waiting {
            out.len()
        } else {
            waiting
        };
        let mut read: usize = 0;
        while read < count
            invariant
                self.wf(),
                self.capacity() == old(self).capacity(),
                self.storage() == old(self).storage(),
                count == accepted(old(self)@.len(), old(out)@.len()),
                count <= old(self)@.len(),
                count <= old(out)@.len(),
                out@.len() == old(out)@.len(),
                read <= count,
                out@ == old(self)@.take(read as int) + old(out)@.skip(read as int),
                self@ == old(self)@.skip(read as int),
                self.is_playing() == old(self).is_playing(),
                self.is_finished() == old(self).is_finished(),
                self.stop_requested() == old(self).stop_requested(),
                self.current_generation() == old(self).current_generation(),
            decreases count - read,
        {
            let sample = self.pop_one();
            out[read] = sample;
            proof {
                assert(out@ =~= old(self)@.take(read + 1) + old(out)@.skip(read + 1));
                assert(self@ =~= old(self)@.skip(read + 1));
            }
            read = read + 1;
        }
        read
    }

    /// Fills `out` for the output device: the oldest queued samples first,
    /// then `silence` for the rest (an underrun when the ring runs dry).
    /// Returns how many samples came from the ring.
    pub fn fill_output(&mut self, out: &mut [T], silence: T) -> (read: usize)
        requires
            old(self).wf(),
        ensures
            final(self).wf(),
            final(self).capacity() == old(self).capacity(),
            final(self).storage() == old(self).storage(),
            read == accepted(old(self)@.len(), old(out)@.len()),
            final(out)@ == old(self)@.take(read as int) + Seq::new(
                (old(out)@.len() - read) as nat,
                |i: int| silence,
            ),
            final(self)@ == old(self)@.skip(read as int),
            final(self).is_playing() == old(self).is_playing(),
            final(self).is_finished() == old(self).is_finished(),
            final(self).stop_requested() == old(self).stop_requested(),
            final(self).current_generation() == old(self).current_generation(),
    {
        let read = self.pop_samples(out);
        let ghost popped = out@;
        let mut i: usize = read;
        while i < out.len()
            invariant
                read <= i <= out@.len(),
                out@.len() == old(out)@.len(),
                read == accepted(old(self)@.len(), old(out)@.len()),
                popped == old(self)@.take(read as int) + old(out)@.skip(read as int),
                forall|k: int| 0 <= k < read ==> #[trigger] out@[k] == popped[k],
                forall|k: int| read <= k < i ==> #[trigger] out@[k] == silence,
            decreases out.len() - i,
        {
            out[i] = silence;
            i = i + 1;
        }
        proof {
            assert(out@ =~= old(self)@.take(read as int) + Seq::new(
                (old(out)@.len() - read) as nat,
                |i: int| silence,
            ));
        }
        read
    }

    /// Stops the current stream: signals the decoder to stop, invalidates its
    /// generation (wrapping), discards queued samples and marks the stream
    /// finished. Slot contents are left as they are.
    pub fn stop_stream(&mut self)
        requires
            old(self).wf(),
        ensures
            final(self).wf(),
            final(self).capacity() == old(self).capacity(),
            final(self).storage() == old(self).storage(),
            final(self)@.len() == 0,
            final(self).stop_requested(),
            final(self).is_finished(),
            final(self).is_playing() == old(self).is_playing(),
            final(self).current_generation() == old(self).current_generation().wrapping_add(1),
    {
        self.should_stop = true;
        self.generation = self.generation.wrapping_add(1);
        self.write_pos = 0;
        self.read_pos = 0;
        self.finished = true;
    }

    /// Whether a stream is actively playing.
    pub fn playing(&self) -> (b: bool)
        ensures
            b == self.is_playing(),
    {
        self.playing
    }

    /// Whether the data source of the current stream has ended.
    pub fn finished(&self) -> (b: bool)
        ensures
            b == self.is_finished(),
    {
        self.finished
    }

    /// Generation id of the current stream.
    pub fn generation(&self) -> (g: u64)
        ensures
            g == self.current_generation(),
    {
        self.generation
    }

    /// Tells the decoder of the current stream to stop.
    pub fn request_stop(&mut self)
        requires
            old(self).wf(),
        ensures
            final(self).wf(),
            final(self).capacity() == old(self).capacity(),
            final(self).storage() == old(self).storage(),
            final(self)@ == old(self)@,
            final(self).stop_requested(),
            final(self).is_playing() == old(self).is_playing(),
            final(self).is_finished() == old(self).is_finished(),
            final(self).current_generation() == old(self).current_generation(),
    {
        self.should_stop = true;
    }

    /// Whether the decoder of stream `generation` must stop.
    pub fn is_stale(&self, generation: u64) -> (stale: bool)
        ensures
            stale == self.decoder_stale(generation),
    {
        self.should_stop || self.generation != generation
    }

    /// Marks the stream finished, but only if `generation` is still current.
    pub fn finish_generation(&mut self, generation: u64)
        requires
            old(self).wf(),
        ensures
            final(self).wf(),
            final(self).capacity() == old(self).capacity(),
            final(self).storage() == old(self).storage(),
            final(self)@ == old(self)@,
            final(self).is_finished() == (old(self).is_finished() || old(self).current_generation() == generation),
            final(self).is_playing() == old(self).is_playing(),
            final(self).stop_requested() == old(self).stop_requested(),
            final(self).current_generation() == old(self).current_generation(),
    {
        if self.generation == generation {
            self.finished = true;
        }
    }

    /// The output is idle when nothing is queued and the source has ended.
    pub fn is_idle(&self) -> (idle: bool)
        requires
            self.wf(),
        ensures
            idle == (self@.len() == 0 && self.is_finished()),
    {
        self.available_read() == 0 && self.finished
    }
}

/// Every well-formed ring keeps one slot free: queued samples plus free
/// slots make up one less than the capacity, so a full ring never
/// overwrites unread samples.
pub proof fn occupancy_bound<T: Copy>(state: &AudioState<T>)
    requires
        state.wf(),
        state.capacity() > 0,
    ensures
        state@.len() + state.free_slots() == state.capacity() - 1,
        state@.len() < state.capacity(),
{
    state.lemma_view();
}

/// Samples come out in the order they went in: when `after_push` is
/// `before` after [`AudioState::push_samples`] of `pushed`, and `after_pop`
/// is `after_push` after [`AudioState::pop_samples`] into an output buffer
/// with room for everything queued, the output starts with the samples
/// that were queued before, followed by the pushed samples that were
/// accepted, and the ring is left empty.
pub proof fn fifo_order<T: Copy>(
    before: AudioState<T>,
    pushed: Seq<T>,
    written: nat,
    after_push: AudioState<T>,
    out_before: Seq<T>,
    read: nat,
    out_after: Seq<T>,
    after_pop: AudioState<T>,
)
    requires
        written == accepted(before.free_slots(), pushed.len()),
        after_push@ == before@ + pushed.take(written as int),
        out_before.len() >= after_push@.len(),
        read == accepted(after_push@.len(), out_before.len()),
        out_after == after_push@.take(read as int) + out_before.skip(read as int),
        after_pop@ == after_push@.skip(read as int),
    ensures
        read == before@.len() + written,
        out_after.take(before@.len() as int) == before@,
        out_after.subrange(before@.len() as int, read as int) == pushed.take(written as int),
        after_pop@.len() == 0,
{
    assert(out_after.take(before@.len() as int) =~= before@);
    assert(out_after.subrange(before@.len() as int, read as int) =~= pushed.take(written as int));
}

/// A decoder never outlives its stream: once a new stream has begun, or
/// the stream was stopped (both move the generation on by one, wrapping),
/// the decoder of the stream before is stale, while the decoder of the new
/// stream is not until a stop is requested.
pub proof fn old_decoders_are_stale<T: Copy>(before: AudioState<T>, after: AudioState<T>)
    requires
        after.current_generation() == before.current_generation().wrapping_add(1),
    ensures
        after.decoder_stale(before.current_generation()),
        !after.stop_requested() ==> !after.decoder_stale(after.current_generation()),
{
}

} // verus!
