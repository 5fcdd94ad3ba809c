use vstd::prelude::*;
use crate::events::event::Event;

verus! {

/// The tag of an event where it crosses to a foreign caller: which member of
/// the payload is in use.
#[derive(Debug, Clone, Copy, PartialEq, Eq, Structural)]
pub enum CEventType {
    KeyboardButtonDown,
    KeyboardButtonUp,
    MouseButtonDown,
    MouseButtonUp,
    MouseWheel,
    Custom,
    Sync,
    Msg,
    FileInput,
    Command,
    Loop,
    Exit,
    MouseMotion,
}

/// The payload of an event where it crosses to a foreign caller: the member that
/// is in use, with its fields as plain values.
#[derive(Debug, Clone)]
#[allow(inconsistent_fields)]
pub enum CEventContainer {
    KeyboardButton { key: i32 },
    MouseButton { key: i32, x: i32, y: i32 },
    MouseWheel { x_dir: i32, y_dir: i32, x: i32, y: i32 },
    MouseMotion { x: i32, y: i32, x_rel: i32, y_rel: i32 },
    Custom { custom_type: i32, data: Vec<u8> },
    ServerSync { data: Vec<u8> },
    ServerMsg { data: Vec<u8> },
    FileInput { file_name: String },
    Command { data: String },
    /// No member is in use: the tag says all.
    Nothing,
}

impl CEventContainer {
    /// The two payloads are the same member with the same fields, where byte
    /// buffers are the same if they hold the same bytes.
    pub open spec fn same_as(self, other: CEventContainer) -> bool {
        match (self, other) {
            (
                CEventContainer::Custom { custom_type: t1, data: d1 },
                CEventContainer::Custom { custom_type: t2, data: d2 },
            ) => t1 == t2 && d1@ == d2@,
            (
                CEventContainer::ServerSync { data: d1 },
                CEventContainer::ServerSync { data: d2 },
            ) => d1@ == d2@,
            (
                CEventContainer::ServerMsg { data: d1 },
                CEventContainer::ServerMsg { data: d2 },
            ) => d1@ == d2@,
            _ => self == other,
        }
    }
}

/// An event as it crosses to a foreign caller: the tag and the payload.
#[derive(Debug, Clone)]
pub struct CEvent {
    pub event_type: CEventType,
    pub event: CEventContainer,
}

impl Event {
    /// The event as it crosses to a foreign caller. The number of a tick does
    /// not cross.
    pub open spec fn spec_to_c(&self) -> CEvent {
        CEvent {
            event_type: self.spec_c_type(),
            event: match *self {
                Event::KeyBoardButtonDown { key } => CEventContainer::KeyboardButton { key },
                Event::KeyBoardButtonUp { key } => CEventContainer::KeyboardButton { key },
                Event::MouseButtonDown { key, x, y } => CEventContainer::MouseButton { key, x, y },
                Event::MouseButtonUp { key, x, y } => CEventContainer::MouseButton { key, x, y },
                Event::MouseWheel { x_dir, y_dir, x, y } => CEventContainer::MouseWheel {
                    x_dir,
                    y_dir,
                    x,
                    y,
                },
                Event::MouseMotion { x, y, x_rel, y_rel } => CEventContainer::MouseMotion {
                    x,
                    y,
                    x_rel,
                    y_rel,
                },
                Event::Custom { custom_type, data } => CEventContainer::Custom {
                    custom_type,
                    data,
                },
                Event::ServerSync { data } => CEventContainer::ServerSync { data },
                Event::Message { data } => CEventContainer::ServerMsg { data },
                Event::FileInput { file_name } => CEventContainer::FileInput { file_name },
                Event::Command { command } => CEventContainer::Command { data: command },
                Event::Loop { .. } => CEventContainer::Nothing,
                Event::Exit => CEventContainer::Nothing,
            },
        }
    }

    /// The event that a foreign caller hands over, if the payload is the member
    /// that the tag asks for. A tick comes in with the number zero.
    pub open spec fn spec_from_c(ce: CEvent) -> Option<Event> {
        match (ce.event_type, ce.event) {
            (CEventType::KeyboardButtonDown, CEventContainer::KeyboardButton { key }) => Some(
                Event::KeyBoardButtonDown { key },
            ),
            (CEventType::KeyboardButtonUp, CEventContainer::KeyboardButton { key }) => Some(
                Event::KeyBoardButtonUp { key },
            ),
            (CEventType::MouseButtonDown, CEventContainer::MouseButton { key, x, y }) => Some(
                Event::MouseButtonDown { key, x, y },
            ),
            (CEventType::MouseButtonUp, CEventContainer::MouseButton { key, x, y }) => Some(
                Event::MouseButtonUp { key, x, y },
            ),
            (CEventType::MouseWheel, CEventContainer::MouseWheel { x_dir, y_dir, x, y }) => Some(
                Event::MouseWheel { x_dir, y_dir, x, y },
            ),
            (CEventType::MouseMotion, CEventContainer::MouseMotion { x, y, x_rel, y_rel }) => Some(
                Event::MouseMotion { x, y, x_rel, y_rel },
            ),
            (CEventType::Custom, CEventContainer::Custom { custom_type, data }) => Some(
                Event::Custom { custom_type, data },
            ),
            (CEventType::Sync, CEventContainer::ServerSync { data }) => Some(
                Event::ServerSync { data },
            ),
            (CEventType::Msg, CEventContainer::ServerMsg { data }) => Some(Event::Message { data }),
            (CEventType::FileInput, CEventContainer::FileInput { file_name }) => Some(
                Event::FileInput { file_name },
            ),
            (CEventType::Command, CEventContainer::Command { data }) => Some(
                Event::Command { command: data },
            ),
            (CEventType::Loop, CEventContainer::Nothing) => Some(Event::Loop { tick: 0 }),
            (CEventType::Exit, CEventContainer::Nothing) => Some(Event::Exit),
            _ => None,
        }
    }

    /// What crossed to a foreign caller comes back as the same event; of a tick,
    /// all but its number.
    pub proof fn lemma_c_round_trip(e: Event)
        ensures
            Self::spec_from_c(e.spec_to_c()) == Some(
                match e {
                    Event::Loop { .. } => Event::Loop { tick: 0 },
                    _ => e,
                },
            ),
            Self::spec_from_c(e.spec_to_c())->0.spec_key() == e.spec_key(),
    {
    }

    /// The event as it crosses to a foreign caller.
    pub fn to_c(&self) -> (ce: CEvent)
        ensures
            ce.event_type == self.spec_to_c().event_type,
            ce.event.same_as(self.spec_to_c().event),
    {
        let event = match self {
            Event::KeyBoardButtonDown { key } => CEventContainer::KeyboardButton { key: *key },
            Event::KeyBoardButtonUp { key } => CEventContainer::KeyboardButton { key: *key },
            Event::MouseButtonDown { key, x, y } => CEventContainer::MouseButton {
                key: *key,
                x: *x,
                y: *y,
            },
            Event::MouseButtonUp { key, x, y } => CEventContainer::MouseButton {
                key: *key,
                x: *x,
                y: *y,
            },
            Event::MouseWheel { x_dir, y_dir, x, y } => CEventContainer::MouseWheel {
                x_dir: *x_dir,
                y_dir: *y_dir,
                x: *x,
                y: *y,
            },
            Event::MouseMotion { x, y, x_rel, y_rel } => CEventContainer::MouseMotion {
                x: *x,
                y: *y,
                x_rel: *x_rel,
                y_rel: *y_rel,
            },
            Event::Custom { custom_type, data } => CEventContainer::Custom {
                custom_type: *custom_type,
                data: copy_bytes(data),
            },
            Event::ServerSync { data } => CEventContainer::ServerSync { data: copy_bytes(data) },
            Event::Message { data } => CEventContainer::ServerMsg { data: copy_bytes(data) },
            Event::FileInput { file_name } => CEventContainer::FileInput {
                file_name: file_name.clone(),
            },
            Event::Command { command } => CEventContainer::Command { data: command.clone() },
            Event::Loop { .. } => CEventContainer::Nothing,
            Event::Exit => CEventContainer::Nothing,
        };
        CEvent { event_type: self.c_type(), event }
    }

    /// The event that a foreign caller hands over; none if the payload is not
    /// the member that the tag asks for.
    pub fn from_c(ce: CEvent) -> (e: Option<Event>)
        ensures
            e == Self::spec_from_c(ce),
    {
        match (ce.event_type, ce.event) {
            (CEventType::KeyboardButtonDown, CEventContainer::KeyboardButton { key }) => Some(
                Event::KeyBoardButtonDown { key },
            ),
            (CEventType::KeyboardButtonUp, CEventContainer::KeyboardButton { key }) => Some(
                Event::KeyBoardButtonUp { key },
            ),
            (CEventType::MouseButtonDown, CEventContainer::MouseButton { key, x, y }) => Some(
                Event::MouseButtonDown { key, x, y },
            ),
            (CEventType::MouseButtonUp, CEventContainer::MouseButton { key, x, y }) => Some(
                Event::MouseButtonUp { key, x, y },
            ),
            (CEventType::MouseWheel, CEventContainer::MouseWheel { x_dir, y_dir, x, y }) => Some(
                Event::MouseWheel { x_dir, y_dir, x, y },
            ),
            (CEventType::MouseMotion, CEventContainer::MouseMotion { x, y, x_rel, y_rel }) => Some(
                Event::MouseMotion { x, y, x_rel, y_rel },
            ),
            (CEventType::Custom, CEventContainer::Custom { custom_type, data }) => Some(
                Event::Custom { custom_type, data },
            ),
            (CEventType::Sync, CEventContainer::ServerSync { data }) => Some(
                Event::ServerSync { data },
            ),
            (CEventType::Msg, CEventContainer::ServerMsg { data }) => Some(Event::Message { data }),
            (CEventType::FileInput, CEventContainer::FileInput { file_name }) => Some(
                Event::FileInput { file_name },
            ),
            (CEventType::Command, CEventContainer::Command { data }) => Some(
                Event::Command { command: data },
            ),
            (CEventType::Loop, CEventContainer::Nothing) => Some(Event::Loop { tick: 0 }),
            (CEventType::Exit, CEventContainer::Nothing) => Some(Event::Exit),
            _ => None,
        }
    }

    /// The tag under which the event crosses to a foreign caller.
    pub open spec fn spec_c_type(&self) -> CEventType {
        match *self {
            Event::KeyBoardButtonDown { .. } => CEventType::KeyboardButtonDown,
            Event::KeyBoardButtonUp { .. } => CEventType::KeyboardButtonUp,
            Event::MouseButtonDown { .. } => CEventType::MouseButtonDown,
            Event::MouseButtonUp { .. } => CEventType::MouseButtonUp,
            Event::MouseWheel { .. } => CEventType::MouseWheel,
            Event::MouseMotion { .. } => CEventType::MouseMotion,
            Event::Custom { .. } => CEventType::Custom,
            Event::ServerSync { .. } => CEventType::Sync,
            Event::Message { .. } => CEventType::Msg,
            Event::FileInput { .. } => CEventType::FileInput,
            Event::Command { .. } => CEventType::Command,
            Event::Loop { .. } => CEventType::Loop,
            Event::Exit => CEventType::Exit,
        }
    }

    /// The tag under which the event crosses to a foreign caller.
    #[verifier::when_used_as_spec(spec_c_type)]
    pub fn c_type(&self) -> (tag: CEventType)
        ensures
            tag == self.spec_c_type(),
    {
        match self {
            Event::KeyBoardButtonDown { .. } => CEventType::KeyboardButtonDown,
            Event::KeyBoardButtonUp { .. } => CEventType::KeyboardButtonUp,
            Event::MouseButtonDown { .. } => CEventType::MouseButtonDown,
            Event::MouseButtonUp { .. } => CEventType::MouseButtonUp,
            Event::MouseWheel { .. } => CEventType::MouseWheel,
            Event::MouseMotion { .. } => CEventType::MouseMotion,
            Event::Custom { .. } => CEventType::Custom,
            Event::ServerSync { .. } => CEventType::Sync,
            Event::Message { .. } => CEventType::Msg,
            Event::FileInput { .. } => CEventType::FileInput,
            Event::Command { .. } => CEventType::Command,
            Event::Loop { .. } => CEventType::Loop,
            Event::Exit => CEventType::Exit,
        }
    }
}

/// A copy of the bytes.
fn copy_bytes(data: &Vec<u8>) -> (copy: Vec<u8>)
    ensures
        copy@ == data@,
{
    let mut copy: Vec<u8> = Vec::new();
    let mut i: usize = 0;
    while i < data.len()
        invariant
            i <= data.len(),
            copy@ == data@.subrange(0, i as int),
        decreases data.len() - i,
    {
        copy.push(data[i]);
        assert(copy@ =~= data@.subrange(0, i + 1));
        i += 1;
    }
    assert(copy@ =~= data@);
    copy
}

} // verus!
