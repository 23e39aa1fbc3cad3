use crate::event::Event;
use crate::event::MouseEvent;
use vstd::prelude::*;

verus! {

/// What a drawing pass knows of the input: the events of the batch at hand.
pub struct Context {
    pub event_chunk: Vec<Event>,
}

/// The mouse events among `events`, in their order.
pub open spec fn mouse_events(events: Seq<Event>) -> Seq<MouseEvent>
    decreases events.len(),
{
    if events.len() == 0 {
        Seq::empty()
    } else {
        match events.last() {
            Event::Mouse(mouse) => mouse_events(events.drop_last()).push(mouse),
            _ => mouse_events(events.drop_last()),
        }
    }
}

impl Default for Context {
    fn default() -> (context: Self)
        ensures
            context.event_chunk@.len() == 0,
    {
        Context { event_chunk: Vec::new() }
    }
}

impl Context {
    /// The mouse events of the batch, in their order.
    pub fn try_as_mouse_events(&self) -> (found: Vec<MouseEvent>)
        ensures
            found@ == mouse_events(self.event_chunk@),
    {
        let mut found: Vec<MouseEvent> = Vec::new();
        let mut i: usize = 0;
        while i < self.event_chunk.len()
            invariant
                i <= self.event_chunk@.len(),
                found@ == mouse_events(self.event_chunk@.take(i as int)),
            decreases self.event_chunk@.len() - i,
        {
            assert(self.event_chunk@.take(i + 1).drop_last() =~= self.event_chunk@.take(i as int));
            match self.event_chunk[i] {
                Event::Mouse(mouse) => {
                    found.push(mouse);
                },
                _ => {},
            }
            i += 1;
        }
        assert(self.event_chunk@.take(i as int) =~= self.event_chunk@);
        found
    }
}

} // verus!
