//! The interrupt controller: the queueing flag and the queue of waiting
//! interrupts.

use vstd::prelude::*;

verus! {

/// What an interrupt controller holds.
pub struct InterruptView {
    /// Whether triggered interrupts are held back in the queue.
    pub queueing: bool,
    /// The messages that wait, oldest first.
    pub queue: Seq<u16>,
}

/// The queueing flag and a first-in, first-out queue of at most 256
/// interrupt messages.
pub struct InterruptController {
    queueing: bool,
    queue: Vec<u16>,
}

impl View for InterruptController {
    type V = InterruptView;

    closed spec fn view(&self) -> InterruptView {
        InterruptView { queueing: self.queueing, queue: self.queue@ }
    }
}

impl InterruptController {
    /// The queue never holds more than 256 messages.
    #[verifier::type_invariant]
    pub closed spec fn bounded(self) -> bool {
        self.queue@.len() <= 256
    }

    /// What the invariant of the type says of the view.
    pub proof fn lemma_bounded(self)
        requires
            self.bounded(),
        ensures
            self@.queue.len() <= 256,
    {
    }

    /// A controller with an empty queue that holds nothing back.
    pub fn new() -> (controller: InterruptController)
        ensures
            controller@.queueing == false,
            controller@.queue == Seq::<u16>::empty(),
    {
        InterruptController { queueing: false, queue: Vec::new() }
    }

    /// Whether triggered interrupts are held back in the queue.
    pub fn queueing(&self) -> (on: bool)
        ensures
            on == self@.queueing,
    {
        self.queueing
    }

    /// Switches queueing on or off; the queue stays as it is.
    pub fn set_queueing(&mut self, on: bool)
        ensures
            final(self)@.queueing == on,
            final(self)@.queue == old(self)@.queue,
    {
        proof {
            use_type_invariant(&*self);
        }
        self.queueing = on;
    }

    /// The number of messages that wait.
    pub fn len(&self) -> (n: usize)
        ensures
            n == self@.queue.len(),
            n <= 256,
    {
        proof {
            use_type_invariant(self);
        }
        self.queue.len()
    }

    /// Appends a message to the queue, unless the queue is full: then the
    /// controller stays as it was and the answer is `false`.
    pub fn enqueue(&mut self, message: u16) -> (accepted: bool)
        ensures
            accepted == (old(self)@.queue.len() < 256),
            accepted ==> final(self)@.queue == old(self)@.queue.push(message),
            !accepted ==> final(self)@.queue == old(self)@.queue,
            final(self)@.queueing == old(self)@.queueing,
    {
        proof {
            use_type_invariant(&*self);
        }
        if self.queue.len() >= 256 {
            false
        } else {
            let mut queue: Vec<u16> = Vec::new();
            std::mem::swap(&mut queue, &mut self.queue);
            queue.push(message);
            self.queue = queue;
            true
        }
    }

    /// Takes the oldest message out of the queue, if there is one.
    pub fn dequeue(&mut self) -> (message: Option<u16>)
        ensures
            old(self)@.queue.len() == 0 ==> message.is_none()
                && final(self)@.queue == old(self)@.queue,
            old(self)@.queue.len() > 0 ==> message == Some(old(self)@.queue[0])
                && final(self)@.queue == old(self)@.queue.skip(1),
            final(self)@.queueing == old(self)@.queueing,
    {
        proof {
            use_type_invariant(&*self);
        }
        if self.queue.len() == 0 {
            None
        } else {
            let mut queue: Vec<u16> = Vec::new();
            std::mem::swap(&mut queue, &mut self.queue);
            let message: u16 = queue.remove(0);
            self.queue = queue;
            Some(message)
        }
    }

    /// Empties the queue and switches queueing off.
    pub fn clear(&mut self)
        ensures
            final(self)@.queueing == false,
            final(self)@.queue == Seq::<u16>::empty(),
    {
        self.queue = Vec::new();
        self.queueing = false;
    }
}

} // verus!
