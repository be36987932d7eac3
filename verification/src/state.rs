use vstd::prelude::*;

verus! {

/// The state of a task: a reference count (the combined total of wakers and
/// task handles), a set of flags, and a 16-bit tag. The whole state packs
/// into one 64-bit word so it can live in an atomic cell.
#[derive(Clone, Copy, PartialEq, Eq, Structural, Debug)]
pub struct State {
    pub reference_count: u32,
    pub flags: u16,
    pub tag: u16,
}

impl State {
    /// The packed word: count in the low 32 bits, flags above it, tag on
    /// top.
    pub open spec fn spec_as_u64(self) -> u64 {
        (self.reference_count as u64) | ((self.flags as u64) << 32) | ((self.tag as u64) << 48)
    }

    /// The state a packed word denotes.
    pub open spec fn spec_from_u64(raw: u64) -> State {
        State {
            reference_count: (raw & 0xffff_ffff) as u32,
            flags: ((raw >> 32) & 0xffff) as u16,
            tag: ((raw >> 48) & 0xffff) as u16,
        }
    }

    /// Turn the state into its packed word.
    pub fn as_usize(self) -> (r: u64)
        ensures
            r == self.spec_as_u64(),
    {
        (self.reference_count as u64) | ((self.flags as u64) << 32) | ((self.tag as u64) << 48)
    }

    /// The inverse of `as_usize`.
    pub fn from_usize(raw: u64) -> (r: Self)
        ensures
            r == Self::spec_from_u64(raw),
    {
        State {
            reference_count: (raw & 0xffff_ffff) as u32,
            flags: ((raw >> 32) & 0xffff) as u16,
            tag: ((raw >> 48) & 0xffff) as u16,
        }
    }

    pub fn increment_reference_count(self) -> (r: Self)
        requires
            self.reference_count < u32::MAX,
        ensures
            r == (Self { reference_count: (self.reference_count + 1) as u32, ..self }),
    {
        Self { reference_count: self.reference_count + 1, ..self }
    }

    pub fn decrement_reference_count(self) -> (r: Self)
        requires
            self.reference_count > 0,
        ensures
            r == (Self { reference_count: (self.reference_count - 1) as u32, ..self }),
    {
        Self { reference_count: self.reference_count - 1, ..self }
    }

    pub fn set_flag(self, flag: u16) -> (r: Self)
        ensures
            r == (Self { flags: self.flags | flag, ..self }),
    {
        Self { flags: self.flags | flag, ..self }
    }

    pub fn has_flag_set(&self, flag: u16) -> (r: bool)
        ensures
            r == ((self.flags & flag) != 0),
    {
        (self.flags & flag) != 0
    }

    pub fn clear_flag(self, flag: u16) -> (r: Self)
        ensures
            r == (Self { flags: self.flags & !flag, ..self }),
    {
        Self { flags: self.flags & !flag, ..self }
    }
}

/// Packing then unpacking a state gives the state back: the three fields
/// occupy disjoint bit ranges of the word.
pub proof fn lemma_state_roundtrip(s: State)
    ensures
        State::spec_from_u64(s.spec_as_u64()) == s,
{
    let c = s.reference_count as u64;
    let f = s.flags as u64;
    let t = s.tag as u64;
    assert(((c | (f << 32) | (t << 48)) & 0xffff_ffff) == c) by (bit_vector)
        requires
            c < 0x1_0000_0000,
            f < 0x1_0000,
            t < 0x1_0000,
    ;
    assert((((c | (f << 32) | (t << 48)) >> 32) & 0xffff) == f) by (bit_vector)
        requires
            c < 0x1_0000_0000,
            f < 0x1_0000,
            t < 0x1_0000,
    ;
    assert((((c | (f << 32) | (t << 48)) >> 48) & 0xffff) == t) by (bit_vector)
        requires
            c < 0x1_0000_0000,
            f < 0x1_0000,
            t < 0x1_0000,
    ;
}

/// The atomic cell a task's state lives in. The memory-ordering arguments
/// of the original operations belong to the runtime's concurrency layer;
/// here the cell is modeled by the word it currently holds, and every
/// operation says exactly how that word changes.
#[derive(Debug)]
pub struct AtomicState {
    pub value: u64,
}

impl AtomicState {
    pub fn new(initial_state: State) -> (r: Self)
        ensures
            r.value == initial_state.spec_as_u64(),
    {
        Self { value: initial_state.as_usize() }
    }

    /// Unpack, let the caller's closure rewrite the state, and store the
    /// rewritten state back.
    pub fn with<R, F: FnOnce(State) -> (State, R)>(&mut self, f: F) -> (r: R)
        requires
            call_requires(f, (State::spec_from_u64(old(self).value),)),
        ensures
            exists|s: State|
                #[trigger] call_ensures(f, (State::spec_from_u64(old(self).value),), (s, r))
                    && final(self).value == s.spec_as_u64(),
    {
        let state = State::from_usize(self.value);
        let (state, r) = f(state);
        self.value = state.as_usize();
        r
    }

    /// `with`, at the acquire-release ordering of the original.
    pub fn with_acquire_release<R, F: FnOnce(State) -> (State, R)>(&mut self, f: F) -> (r: R)
        requires
            call_requires(f, (State::spec_from_u64(old(self).value),)),
        ensures
            exists|s: State|
                #[trigger] call_ensures(f, (State::spec_from_u64(old(self).value),), (s, r))
                    && final(self).value == s.spec_as_u64(),
    {
        self.with(f)
    }

    /// Replace the state word if it still holds the expected state; hand
    /// back the previous state either way (`Ok` on success).
    pub fn compare_exchange_weak(&mut self, expected: State, new_state: State) -> (r: Result<
        State,
        State,
    >)
        ensures
            old(self).value == expected.spec_as_u64() ==> final(self).value
                == new_state.spec_as_u64() && r == Ok::<State, State>(
                State::spec_from_u64(expected.spec_as_u64()),
            ),
            old(self).value != expected.spec_as_u64() ==> final(self).value == old(self).value
                && r == Err::<State, State>(State::spec_from_u64(old(self).value)),
    {
        if self.value == expected.as_usize() {
            let prev = State::from_usize(self.value);
            self.value = new_state.as_usize();
            Ok(prev)
        } else {
            Err(State::from_usize(self.value))
        }
    }

    pub fn load(&self) -> (r: State)
        ensures
            r == State::spec_from_u64(self.value),
    {
        State::from_usize(self.value)
    }

    pub fn store(&mut self, state: State)
        ensures
            final(self).value == state.spec_as_u64(),
    {
        self.value = state.as_usize();
    }
}

} // verus!
