use vstd::prelude::*;

verus! {

/// The samples recorded so far, in the order they were captured. The sample
/// type is left open: the buffer only keeps, appends and empties.
pub struct AudioBuffer<S> {
    data: Vec<S>,
}

impl<S> View for AudioBuffer<S> {
    type V = Seq<S>;

    closed spec fn view(&self) -> Seq<S> {
        self.data@
    }
}

impl<S: Copy> AudioBuffer<S> {
    /// An empty buffer.
    pub fn new() -> (buffer: Self)
        ensures
            buffer@ == Seq::<S>::empty(),
    {
        AudioBuffer { data: Vec::new() }
    }

    /// A buffer that holds these samples.
    pub fn from_samples(samples: Vec<S>) -> (buffer: Self)
        ensures
            buffer@ == samples@,
    {
        AudioBuffer { data: samples }
    }

    /// Drops every sample.
    pub fn clear(&mut self)
        ensures
            final(self)@ == Seq::<S>::empty(),
    {
        self.data.clear();
    }

    /// Appends the new samples after those already held, keeping their order.
    pub fn add_data(&mut self, new_data: &[S])
        ensures
            final(self)@ == old(self)@ + new_data@,
    {
        let n = new_data.len();
        let mut i: usize = 0;
        while i < n
            invariant
                n == new_data@.len(),
                i <= n,
                self.data@ == old(self)@ + new_data@.take(i as int),
            decreases n - i,
        {
            self.data.push(new_data[i]);
            assert(new_data@.take(i + 1) =~= new_data@.take(i as int).push(new_data@[i as int]));
            i = i + 1;
        }
        assert(new_data@.take(n as int) =~= new_data@);
    }

    /// How many samples are held.
    pub fn len(&self) -> (n: usize)
        ensures
            n == self@.len(),
    {
        self.data.len()
    }

    /// Whether no sample is held.
    pub fn is_empty(&self) -> (empty: bool)
        ensures
            empty <==> self@.len() == 0,
    {
        self.data.len() == 0
    }

    /// The samples held, in order.
    pub fn samples(&self) -> (samples: &[S])
        ensures
            samples@ == self@,
    {
        self.data.as_slice()
    }

    /// Gives up the buffer and hands out its samples.
    pub fn into_samples(self) -> (samples: Vec<S>)
        ensures
            samples@ == self@,
    {
        self.data
    }
}

} // verus!
