use vstd::prelude::*;
use crate::events::event::Event;

verus! {

/// A source of events. The loop polls every provider once per frame, in the
/// order in which they were registered.
pub trait EventProvider {
    /// Appends the events that have come in since the last call, none if there
    /// are none, and leaves what `buf` already holds as it is.
    fn provide_events(&mut self, buf: &mut Vec<Event>)
        ensures
            old(buf)@.is_prefix_of(final(buf)@),
    ;
}

/// A buffer of events is a provider: it hands over all that it holds, in order,
/// and is empty afterwards.
impl EventProvider for Vec<Event> {
    fn provide_events(&mut self, buf: &mut Vec<Event>)
        ensures
            final(buf)@ == old(buf)@ + old(self)@,
            final(self)@ == Seq::<Event>::empty(),
    {
        buf.append(self);
    }
}

/// The provider of file input where the host has none: it provides nothing.
pub fn file_input_provider(buf: &mut Vec<Event>)
    ensures
        final(buf)@ == old(buf)@,
{
}

/// The provider of console commands, after the read: `line` is the line that was
/// read from the console, or nothing if the read failed. A line becomes one
/// `Command` event; without a line nothing is provided.
pub fn console_input_command_provider(buf: &mut Vec<Event>, line: Option<String>)
    ensures
        final(buf)@ == match line {
            Some(command) => old(buf)@.push(Event::Command { command }),
            None => old(buf)@,
        },
{
    if let Some(command) = line {
        buf.push(Event::Command { command });
    }
}

} // verus!
