use vstd::prelude::*;
use vstd::std_specs::cmp::PartialEqSpecImpl;
use std::hash::{Hash, Hasher};

verus! {

/// What the loop hands to listeners: input from devices, events of the
/// application, the tick of each frame, and the request to stop.
#[derive(Debug, Clone)]
pub enum Event {
    /// A key went down.
    KeyBoardButtonDown { key: i32 },
    /// A key went up.
    KeyBoardButtonUp { key: i32 },
    /// A mouse button went down at `(x, y)`.
    MouseButtonDown { key: i32, x: i32, y: i32 },
    /// A mouse button went up at `(x, y)`.
    MouseButtonUp { key: i32, x: i32, y: i32 },
    /// The wheel turned while the pointer was at `(x, y)`.
    MouseWheel { x_dir: i32, y_dir: i32, x: i32, y: i32 },
    /// The pointer moved to `(x, y)`.
    MouseMotion { x: i32, y: i32, x_rel: i32, y_rel: i32 },
    /// An event of the application's own, told apart by `custom_type`.
    Custom { custom_type: i32, data: Vec<u8> },
    ServerSync { data: Vec<u8> },
    Message { data: Vec<u8> },
    FileInput { file_name: String },
    Command { command: String },
    /// The tick that the loop makes up once per frame.
    Loop { tick: u64 },
    /// The request to end the loop.
    Exit,
}

/// The class of events that a listener registers for: the variant and, for keys,
/// mouse buttons and custom events, the code that tells them apart. All other
/// fields of an event are payload and play no part in dispatch.
#[derive(Debug, Clone, Copy, PartialEq, Eq, Structural)]
pub enum DispatchKey {
    KeyBoardButtonDown { key: i32 },
    KeyBoardButtonUp { key: i32 },
    MouseButtonDown { key: i32 },
    MouseButtonUp { key: i32 },
    MouseWheel,
    MouseMotion,
    Custom { custom_type: i32 },
    ServerSync,
    Message,
    FileInput,
    Command,
    Loop,
    Exit,
}

impl DispatchKey {
    /// The number of the variant.
    pub open spec fn tag(self) -> int {
        match self {
            DispatchKey::KeyBoardButtonDown { .. } => 0,
            DispatchKey::KeyBoardButtonUp { .. } => 1,
            DispatchKey::MouseButtonDown { .. } => 2,
            DispatchKey::MouseButtonUp { .. } => 3,
            DispatchKey::MouseWheel => 4,
            DispatchKey::MouseMotion => 5,
            DispatchKey::Custom { .. } => 6,
            DispatchKey::ServerSync => 7,
            DispatchKey::Message => 8,
            DispatchKey::FileInput => 9,
            DispatchKey::Command => 10,
            DispatchKey::Loop => 11,
            DispatchKey::Exit => 12,
        }
    }

    /// The code that belongs to the key; zero where the variant has none.
    pub open spec fn selector(self) -> int {
        match self {
            DispatchKey::KeyBoardButtonDown { key } => key as int,
            DispatchKey::KeyBoardButtonUp { key } => key as int,
            DispatchKey::MouseButtonDown { key } => key as int,
            DispatchKey::MouseButtonUp { key } => key as int,
            DispatchKey::Custom { custom_type } => custom_type as int,
            _ => 0,
        }
    }

    /// The key as one number: the variant's number in the upper half, the code,
    /// moved into the non-negative range, in the lower half.
    pub open spec fn spec_code(self) -> u64 {
        (self.tag() * 0x1_0000_0000 + (self.selector() + 0x8000_0000)) as u64
    }

    /// The key as one number, under which the listener table files it.
    pub fn code(&self) -> (code: u64)
        ensures
            code == self.spec_code(),
    {
        let (tag, selector): (u64, i32) = match self {
            DispatchKey::KeyBoardButtonDown { key } => (0, *key),
            DispatchKey::KeyBoardButtonUp { key } => (1, *key),
            DispatchKey::MouseButtonDown { key } => (2, *key),
            DispatchKey::MouseButtonUp { key } => (3, *key),
            DispatchKey::MouseWheel => (4, 0),
            DispatchKey::MouseMotion => (5, 0),
            DispatchKey::Custom { custom_type } => (6, *custom_type),
            DispatchKey::ServerSync => (7, 0),
            DispatchKey::Message => (8, 0),
            DispatchKey::FileInput => (9, 0),
            DispatchKey::Command => (10, 0),
            DispatchKey::Loop => (11, 0),
            DispatchKey::Exit => (12, 0),
        };
        tag * 0x1_0000_0000 + (selector as i64 + 0x8000_0000) as u64
    }

    /// Different keys have different numbers.
    pub proof fn lemma_code_injective(a: DispatchKey, b: DispatchKey)
        requires
            a.spec_code() == b.spec_code(),
        ensures
            a == b,
    {
        assert(a.tag() == a.spec_code() as int / 0x1_0000_0000);
        assert(b.tag() == b.spec_code() as int / 0x1_0000_0000);
        assert(a.selector() == a.spec_code() as int % 0x1_0000_0000 - 0x8000_0000);
        assert(b.selector() == b.spec_code() as int % 0x1_0000_0000 - 0x8000_0000);
    }
}

impl Event {
    /// The dispatch key of the event.
    pub open spec fn spec_key(&self) -> DispatchKey {
        match *self {
            Event::KeyBoardButtonDown { key } => DispatchKey::KeyBoardButtonDown { key },
            Event::KeyBoardButtonUp { key } => DispatchKey::KeyBoardButtonUp { key },
            Event::MouseButtonDown { key, .. } => DispatchKey::MouseButtonDown { key },
            Event::MouseButtonUp { key, .. } => DispatchKey::MouseButtonUp { key },
            Event::MouseWheel { .. } => DispatchKey::MouseWheel,
            Event::MouseMotion { .. } => DispatchKey::MouseMotion,
            Event::Custom { custom_type, .. } => DispatchKey::Custom { custom_type },
            Event::ServerSync { .. } => DispatchKey::ServerSync,
            Event::Message { .. } => DispatchKey::Message,
            Event::FileInput { .. } => DispatchKey::FileInput,
            Event::Command { .. } => DispatchKey::Command,
            Event::Loop { .. } => DispatchKey::Loop,
            Event::Exit => DispatchKey::Exit,
        }
    }

    /// The dispatch key of the event.
    #[verifier::when_used_as_spec(spec_key)]
    pub fn key(&self) -> (k: DispatchKey)
        ensures
            k == self.spec_key(),
    {
        match self {
            Event::KeyBoardButtonDown { key } => DispatchKey::KeyBoardButtonDown { key: *key },
            Event::KeyBoardButtonUp { key } => DispatchKey::KeyBoardButtonUp { key: *key },
            Event::MouseButtonDown { key, .. } => DispatchKey::MouseButtonDown { key: *key },
            Event::MouseButtonUp { key, .. } => DispatchKey::MouseButtonUp { key: *key },
            Event::MouseWheel { .. } => DispatchKey::MouseWheel,
            Event::MouseMotion { .. } => DispatchKey::MouseMotion,
            Event::Custom { custom_type, .. } => DispatchKey::Custom { custom_type: *custom_type },
            Event::ServerSync { .. } => DispatchKey::ServerSync,
            Event::Message { .. } => DispatchKey::Message,
            Event::FileInput { .. } => DispatchKey::FileInput,
            Event::Command { .. } => DispatchKey::Command,
            Event::Loop { .. } => DispatchKey::Loop,
            Event::Exit => DispatchKey::Exit,
        }
    }

    /// The hash of the event: the number of its dispatch key.
    pub open spec fn spec_hash_code(&self) -> u64 {
        self.spec_key().spec_code()
    }

    /// The hash of the event. It depends on the dispatch key alone, so that
    /// events that are equal for dispatch hash alike.
    #[verifier::when_used_as_spec(spec_hash_code)]
    pub fn hash_code(&self) -> (code: u64)
        ensures
            code == self.spec_hash_code(),
    {
        self.key().code()
    }

    /// Whether the event asks the loop to stop.
    pub fn is_exit(&self) -> (exit: bool)
        ensures
            exit == (self.spec_key() == DispatchKey::Exit),
    {
        match self {
            Event::Exit => true,
            _ => false,
        }
    }

    /// Events with the same dispatch key have the same hash, and events with the
    /// same hash have the same dispatch key.
    pub proof fn lemma_hash_follows_key(e1: Event, e2: Event)
        ensures
            e1.spec_key() == e2.spec_key() <==> e1.spec_hash_code() == e2.spec_hash_code(),
    {
        if e1.spec_hash_code() == e2.spec_hash_code() {
            DispatchKey::lemma_code_injective(e1.spec_key(), e2.spec_key());
        }
    }
}

/// Two events are equal if they are the same for dispatch: their keys are equal.
impl PartialEq for Event {
    fn eq(&self, other: &Self) -> (equal: bool) {
        self.key() == other.key()
    }
}

impl PartialEqSpecImpl for Event {
    open spec fn obeys_eq_spec() -> bool {
        true
    }

    open spec fn eq_spec(&self, other: &Self) -> bool {
        self.spec_key() == other.spec_key()
    }
}

impl Eq for Event {

}

/// `Hasher::write_u64`: feeds `code` to the hasher.
#[verifier::external_body]
fn write_code<H: Hasher>(state: &mut H, code: u64) {
    state.write_u64(code)
}

/// An event is hashed by its dispatch key alone, as it is compared.
impl Hash for Event {
    fn hash<H: Hasher>(&self, state: &mut H) {
        write_code(state, self.hash_code());
    }
}

} // verus!
