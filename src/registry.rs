use vstd::prelude::*;

verus! {

/// The ordered set of listeners that receive each tick.
///
/// Listeners are kept in the order they were attached.
#[derive(Debug)]
pub struct Registry<L> {
    listeners: Vec<L>,
}

impl<L> View for Registry<L> {
    type V = Seq<L>;

    closed spec fn view(&self) -> Seq<L> {
        self.listeners@
    }
}

impl<L> Registry<L> {
    /// A registry with no listeners.
    pub fn new() -> (r: Self)
        ensures
            r@ == Seq::<L>::empty(),
    {
        Registry { listeners: Vec::new() }
    }

    /// Appends `listener` after those already attached.
    pub fn attach(&mut self, listener: L)
        ensures
            final(self)@ == old(self)@.push(listener),
    {
        self.listeners.push(listener);
    }

    /// Removes every listener.
    pub fn clear(&mut self)
        ensures
            final(self)@ == Seq::<L>::empty(),
    {
        self.listeners.clear();
    }

    /// Number of attached listeners.
    pub fn len(&self) -> (r: usize)
        ensures
            r == self@.len(),
    {
        self.listeners.len()
    }

    /// Whether no listener is attached.
    pub fn is_empty(&self) -> (r: bool)
        ensures
            r == (self@.len() == 0),
    {
        self.listeners.len() == 0
    }

    /// The attached listeners, in the order they were attached.
    pub fn listeners(&self) -> (r: &[L])
        ensures
            r@ == self@,
    {
        self.listeners.as_slice()
    }

    /// Offers `timestamp` to every listener through `send`, in order of attachment.
    ///
    /// `send` reports whether that listener took the value. A listener that did not
    /// (its receiving side is gone) is skipped: the pass goes on to the rest.
    /// The result holds each listener's outcome, in the same order.
    pub fn broadcast<F: Fn(&L, u64) -> bool>(&self, timestamp: u64, send: F) -> (r: Vec<bool>)
        requires
            forall|i: int| 0 <= i < self@.len() ==> call_requires(send, (&self@[i], timestamp)),
        ensures
            r@.len() == self@.len(),
            forall|i: int|
                0 <= i < self@.len() ==> call_ensures(send, (&self@[i], timestamp), #[trigger] r@[i]),
    {
        let mut outcomes: Vec<bool> = Vec::new();
        let mut i: usize = 0;
        while i < self.listeners.len()
            invariant
                i <= self@.len(),
                outcomes@.len() == i,
                forall|j: int| 0 <= j < self@.len() ==> call_requires(send, (&self@[j], timestamp)),
                forall|j: int|
                    0 <= j < i ==> call_ensures(send, (&self@[j], timestamp), #[trigger] outcomes@[j]),
            decreases self@.len() - i,
        {
            let took = send(&self.listeners[i], timestamp);
            outcomes.push(took);
            i = i + 1;
        }
        outcomes
    }
}

} // verus!
