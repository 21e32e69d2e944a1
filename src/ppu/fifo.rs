use vstd::prelude::*;

verus! {

/// The number of slots in a pixel FIFO.
pub const FIFO_CAPACITY: usize = 16;

/// A fixed-capacity ring buffer of 2-bit pixel values, shifted out to the LCD
/// in the order they were pushed.
pub struct Fifo {
    pub data: Vec<u8>,
    /// Index of the oldest value (the next to leave).
    pub tail: usize,
    /// Index of the slot the next value goes to.
    pub head: usize,
    pub size: usize,
}

impl Fifo {
    pub open spec fn wf(self) -> bool {
        &&& self.data@.len() == FIFO_CAPACITY
        &&& self.tail < FIFO_CAPACITY
        &&& self.size <= FIFO_CAPACITY
        &&& self.head == (self.tail + self.size) % (FIFO_CAPACITY as int)
    }

    /// The values in the FIFO, oldest first.
    pub open spec fn contents(self) -> Seq<u8> {
        Seq::new(self.size as nat, |i: int| self.data@[(self.tail + i) % (FIFO_CAPACITY as int)])
    }

    /// An empty FIFO.
    pub fn new() -> (r: Fifo)
        ensures
            r.wf(),
            r.contents() == Seq::<u8>::empty(),
    {
        let data = crate::memory::zeroed(FIFO_CAPACITY);
        let r = Fifo { data, tail: 0, head: 0, size: 0 };
        assert(r.contents() =~= Seq::<u8>::empty());
        r
    }

    /// Append a value; the FIFO must not be full.
    pub fn push(&mut self, value: u8)
        requires
            old(self).wf(),
            old(self).size < FIFO_CAPACITY,
        ensures
            final(self).wf(),
            final(self).contents() == old(self).contents().push(value),
    {
        let ghost before = self.contents();
        let h = self.head;
        self.data[h] = value;
        self.head = (self.head + 1) % FIFO_CAPACITY;
        self.size = self.size + 1;
        assert(self.contents() =~= before.push(value)) by {
            assert forall|i: int| 0 <= i < before.len() implies self.contents()[i] == before[i] by {
                assert((self.tail + i) % 16 != h as int);
            }
            assert((self.tail + before.len()) % 16 == h as int);
        }
    }

    /// Remove and return the oldest value; the FIFO must not be empty.
    pub fn pop(&mut self) -> (r: u8)
        requires
            old(self).wf(),
            old(self).size > 0,
        ensures
            final(self).wf(),
            r == old(self).contents()[0],
            final(self).contents() == old(self).contents().drop_first(),
    {
        let ghost before = self.contents();
        let value = self.data[self.tail];
        self.tail = (self.tail + 1) % FIFO_CAPACITY;
        self.size = self.size - 1;
        assert(self.contents() =~= before.drop_first()) by {
            assert forall|i: int| 0 <= i < self.size implies self.contents()[i] == before[i + 1] by {
                assert((old(self).tail + i + 1) % 16 == (self.tail + i) % 16);
            }
        }
        value
    }

    /// The number of values in the FIFO.
    pub fn size(&self) -> (r: usize)
        ensures
            r == self.contents().len(),
    {
        self.size
    }

    /// Drop every value.
    pub fn clear(&mut self)
        requires
            old(self).wf(),
        ensures
            final(self).wf(),
            final(self).contents() == Seq::<u8>::empty(),
    {
        self.tail = 0;
        self.head = 0;
        self.size = 0;
        assert(self.contents() =~= Seq::<u8>::empty());
    }
}

} // verus!
