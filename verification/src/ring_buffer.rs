use vstd::prelude::*;

verus! {

/// A fixed-size ring of slots: a writer fills slot `writer_head % BUFFER_SIZE`, a reader takes
/// slot `reader_head % BUFFER_SIZE`; both heads count up without wrapping.
#[derive(Debug)]
pub struct RingBuffer<T, const BUFFER_SIZE: usize> {
    buffer: Vec<Option<T>>,
    pub writer_head: usize,
    pub reader_head: usize,
}

/// The slots of a ring buffer and its two heads.
pub struct RingBufferState<T> {
    pub slots: Seq<Option<T>>,
    pub writer_head: usize,
    pub reader_head: usize,
}

impl<T> RingBufferState<T> {
    /// The state after `data` is written to the writer's slot of a ring of `size` slots.
    pub open spec fn pushed(self, data: T, size: nat) -> Self {
        RingBufferState {
            slots: self.slots.update(self.writer_head as int % size as int, Some(data)),
            writer_head: (self.writer_head + 1) as usize,
            ..self
        }
    }

    /// What a read takes: the reader's slot while the reader is behind the writer.
    pub open spec fn next_value(self, size: nat) -> Option<T> {
        if self.writer_head > self.reader_head {
            self.slots[self.reader_head as int % size as int]
        } else {
            None
        }
    }

    /// The state after a read.
    pub open spec fn after_next(self, size: nat) -> Self {
        if self.writer_head > self.reader_head {
            RingBufferState {
                slots: self.slots.update(self.reader_head as int % size as int, None),
                reader_head: (self.reader_head + 1) as usize,
                ..self
            }
        } else {
            self
        }
    }
}

/// Reading after a write into a ring whose reader had caught up gives back what was written, and
/// the reader catches up again.
pub proof fn law_push_then_next<T>(s: RingBufferState<T>, data: T, size: nat)
    requires
        size > 0,
        s.slots.len() == size,
        s.reader_head == s.writer_head,
        s.writer_head < usize::MAX,
    ensures
        s.pushed(data, size).next_value(size) == Some(data),
        s.pushed(data, size).after_next(size).reader_head == s.pushed(data, size).writer_head,
{
}

impl<T> RingBufferState<T> {
    /// The state after the values of `data` were written one after the other.
    pub open spec fn pushed_all(self, data: Seq<T>, size: nat) -> Self
        decreases data.len(),
    {
        if data.len() == 0 {
            self
        } else {
            self.pushed_all(data.drop_last(), size).pushed(data.last(), size)
        }
    }

    /// The state after `n` reads, and what the reads took, in order.
    pub open spec fn read_n(self, n: nat, size: nat) -> (Self, Seq<Option<T>>)
        decreases n,
    {
        if n == 0 {
            (self, Seq::empty())
        } else {
            let (t, out) = self.read_n((n - 1) as nat, size);
            (t.after_next(size), out.push(t.next_value(size)))
        }
    }
}

/// Distinct positions less than `size` apart fall into distinct slots.
proof fn lemma_distinct_slots(w: int, j: int, k: int, size: int)
    requires
        size > 0,
        0 <= w,
        0 <= j < k,
        k - j < size,
    ensures
        (w + j) % size != (w + k) % size,
{
    let a = w + j;
    let b = w + k;
    assert((a % size != b % size)) by (nonlinear_arith)
        requires
            size > 0,
            0 <= a < b,
            b - a < size,
    {
        let qa = a / size;
        let qb = b / size;
        assert(a == size * qa + a % size);
        assert(b == size * qb + b % size);
        if a % size == b % size {
            assert(b - a == size * (qb - qa));
            if qb - qa >= 1 {
                assert(size * (qb - qa) >= size);
            } else {
                assert(size * (qb - qa) <= 0);
            }
        }
    }
}

/// After writing the values of `data` into a ring whose reader had caught up, value `j` sits
/// in the slot of position `writer_head + j`.
proof fn lemma_pushed_all<T>(s: RingBufferState<T>, data: Seq<T>, size: nat)
    requires
        size > 0,
        s.slots.len() == size,
        data.len() <= size,
        s.writer_head + data.len() <= usize::MAX,
    ensures
        s.pushed_all(data, size).slots.len() == size,
        s.pushed_all(data, size).writer_head == s.writer_head + data.len(),
        s.pushed_all(data, size).reader_head == s.reader_head,
        forall|j: int|
            0 <= j < data.len() ==> #[trigger] s.pushed_all(data, size).slots[(s.writer_head + j) % (size as int)]
                == Some(data[j]),
    decreases data.len(),
{
    if data.len() > 0 {
        let prev = data.drop_last();
        lemma_pushed_all(s, prev, size);
        let k = prev.len() as int;
        assert forall|j: int| 0 <= j < data.len() implies #[trigger] s.pushed_all(data, size).slots[(s.writer_head + j)
            % (size as int)] == Some(data[j]) by {
            if j < k {
                lemma_distinct_slots(s.writer_head as int, j, k, size as int);
                assert(s.pushed_all(prev, size).slots[(s.writer_head + j) % (size as int)] == Some(prev[j]));
            }
        }
    }
}

/// Reading `m` times from a ring filled with `data` takes the first `m` values in order.
proof fn lemma_read_n<T>(s: RingBufferState<T>, data: Seq<T>, size: nat, m: nat)
    requires
        size > 0,
        s.slots.len() == size,
        data.len() <= size,
        m <= data.len(),
        s.reader_head == s.writer_head,
        s.writer_head + data.len() <= usize::MAX,
    ensures
        ({
            let (t, out) = s.pushed_all(data, size).read_n(m, size);
            &&& t.reader_head == s.writer_head + m
            &&& t.writer_head == s.writer_head + data.len()
            &&& t.slots.len() == size
            &&& out == data.take(m as int).map_values(|v: T| Some(v))
            &&& forall|j: int| m <= j < data.len() ==> #[trigger] t.slots[(s.writer_head + j) % (size as int)] == Some(data[j])
        }),
    decreases m,
{
    lemma_pushed_all(s, data, size);
    if m > 0 {
        lemma_read_n(s, data, size, (m - 1) as nat);
        let (t, out) = s.pushed_all(data, size).read_n((m - 1) as nat, size);
        let r = (s.writer_head + m - 1) % (size as int);
        assert forall|j: int| m <= j < data.len() implies #[trigger] t.after_next(size).slots[(s.writer_head + j)
            % (size as int)] == Some(data[j]) by {
            lemma_distinct_slots(s.writer_head as int, m - 1, j, size as int);
        }
        assert(out.push(t.next_value(size)) =~= data.take(m as int).map_values(|v: T| Some(v)));
    }
}

/// Writing up to a ring's size of values into a ring whose reader had caught up, then reading
/// as many times, gives the values back in the order they were written; the next read finds
/// nothing.
pub proof fn law_pushes_then_reads<T>(s: RingBufferState<T>, data: Seq<T>, size: nat)
    requires
        size > 0,
        s.slots.len() == size,
        s.reader_head == s.writer_head,
        data.len() <= size,
        s.writer_head + data.len() <= usize::MAX,
    ensures
        s.pushed_all(data, size).read_n(data.len(), size).1 == data.map_values(|v: T| Some(v)),
        s.pushed_all(data, size).read_n(data.len(), size).0.next_value(size) is None,
{
    lemma_read_n(s, data, size, data.len());
    assert(data.take(data.len() as int) =~= data);
}

impl<T, const BUFFER_SIZE: usize> View for RingBuffer<T, BUFFER_SIZE> {
    type V = RingBufferState<T>;

    closed spec fn view(&self) -> RingBufferState<T> {
        RingBufferState { slots: self.buffer@, writer_head: self.writer_head, reader_head: self.reader_head }
    }
}

impl<T, const BUFFER_SIZE: usize> RingBuffer<T, BUFFER_SIZE> {
    /// The buffer has exactly `BUFFER_SIZE` slots.
    pub open spec fn wf(&self) -> bool {
        self@.slots.len() == BUFFER_SIZE
    }

    /// An empty ring: every slot empty, both heads at zero.
    pub fn new() -> (r: RingBuffer<T, BUFFER_SIZE>)
        ensures
            r.wf(),
            r@.slots == Seq::new(BUFFER_SIZE as nat, |i: int| None::<T>),
            r@.writer_head == 0,
            r@.reader_head == 0,
    {
        let mut buffer: Vec<Option<T>> = Vec::new();
        while buffer.len() < BUFFER_SIZE
            invariant
                buffer@.len() <= BUFFER_SIZE,
                forall|i: int| 0 <= i < buffer@.len() ==> #[trigger] buffer@[i] is None,
            decreases BUFFER_SIZE - buffer@.len(),
        {
            buffer.push(None);
        }
        assert(buffer@ =~= Seq::new(BUFFER_SIZE as nat, |i: int| None::<T>));
        RingBuffer { buffer, writer_head: 0, reader_head: 0 }
    }

    /// Stores `data` in the writer's slot, replacing what it held, and advances the writer.
    pub fn push(&mut self, data: T)
        requires
            old(self).wf(),
            BUFFER_SIZE > 0,
            old(self)@.writer_head < usize::MAX,
        ensures
            final(self).wf(),
            final(self)@ == old(self)@.pushed(data, BUFFER_SIZE as nat),
    {
        let slot = self.writer_head % BUFFER_SIZE;
        self.buffer.set(slot, Some(data));
        self.writer_head = self.writer_head + 1;
    }

    /// Moves the writer to `index` and takes what the slot of `index` holds, leaving it empty.
    pub fn get(&mut self, index: usize) -> (r: Option<T>)
        requires
            old(self).wf(),
            BUFFER_SIZE > 0,
        ensures
            final(self).wf(),
            r == old(self)@.slots[(index % BUFFER_SIZE) as int],
            final(self)@.slots == old(self)@.slots.update((index % BUFFER_SIZE) as int, None),
            final(self)@.writer_head == index,
            final(self)@.reader_head == old(self)@.reader_head,
    {
        self.writer_head = index;
        self.buffer[index % BUFFER_SIZE].take()
    }

    /// What the slot of `index` holds, without taking it.
    pub fn peak(&self, index: usize) -> (r: Option<&T>)
        requires
            self.wf(),
            BUFFER_SIZE > 0,
        ensures
            r == (match self@.slots[(index % BUFFER_SIZE) as int] {
                Some(v) => Some(&v),
                None => None,
            }),
    {
        self.buffer[index % BUFFER_SIZE].as_ref()
    }

    /// Takes the reader's slot and advances the reader, while the reader is behind the writer;
    /// once it caught up, returns `None` and changes nothing.
    pub fn next(&mut self) -> (r: Option<T>)
        requires
            old(self).wf(),
            BUFFER_SIZE > 0,
        ensures
            final(self).wf(),
            r == old(self)@.next_value(BUFFER_SIZE as nat),
            final(self)@ == old(self)@.after_next(BUFFER_SIZE as nat),
    {
        if self.writer_head > self.reader_head {
            let sample = self.buffer[self.reader_head % BUFFER_SIZE].take();
            self.reader_head = self.reader_head + 1;
            sample
        } else {
            None
        }
    }
}

impl<T, const BUFFER_SIZE: usize> Default for RingBuffer<T, BUFFER_SIZE> {
    fn default() -> (r: Self)
        ensures
            r.wf(),
            r@.slots == Seq::new(BUFFER_SIZE as nat, |i: int| None::<T>),
            r@.writer_head == 0,
            r@.reader_head == 0,
    {
        Self::new()
    }
}

} // verus!
