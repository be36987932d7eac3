use vstd::prelude::*;

verus! {

/// Marker for data whose size is not known statically.
#[derive(Clone, Copy, Debug)]
pub struct PhantomUnsized {
    _marker: (),
}

/// One entity of the component storage, identified by a numeric id.
#[derive(Clone, Copy, PartialEq, Eq, Structural, Debug)]
pub struct Entity {
    pub id: u32,
}

impl Entity {
    /// The placeholder entity.
    pub fn dummy() -> (r: Self)
        ensures
            r.id == 0,
    {
        Self { id: 0 }
    }
}

/// The size and alignment of one allocation, as plain numbers.
#[derive(Clone, Copy, PartialEq, Eq, Structural, Debug)]
pub struct LayoutInfo {
    pub size: usize,
    pub align: usize,
}

/// Something that knows the memory layout of the storage it describes.
pub trait GetLayout {
    fn layout(&self) -> LayoutInfo;
}

/// The header of one component storage: its length, its capacity with a
/// constant-storage flag packed into the top bit, and its layout
/// description.
#[derive(Debug)]
pub struct Header<L> {
    pub len: u32,
    pub cap: u32,
    pub layout: L,
}

impl<L: GetLayout> Header<L> {
    /// The capacity without the constant-storage flag bit.
    pub open spec fn spec_capacity(&self) -> u32 {
        self.cap & 0x7fff_ffff
    }

    /// Whether the storage was created with a fixed, compile-time capacity.
    pub open spec fn spec_is_constant(&self) -> bool {
        (self.cap >> 31) != 0
    }

    /// Build a header: the capacity must leave the top bit free, since that
    /// bit carries the constant-storage flag.
    pub fn new(is_constant: bool, cap: u32, layout: L) -> (r: Self)
        requires
            cap <= 0x7fff_ffff,
        ensures
            r.len == 0,
            r.layout == layout,
            r.spec_capacity() == cap,
            r.spec_is_constant() == is_constant,
    {
        let mask: u32 = if is_constant {
            0x8000_0000
        } else {
            0
        };
        let r = Self { len: 0, cap: mask | cap, layout };
        proof {
            let c = cap;
            if is_constant {
                assert((0x8000_0000u32 | c) & 0x7fff_ffff == c && ((0x8000_0000u32 | c) >> 31)
                    != 0) by (bit_vector)
                    requires
                        c <= 0x7fff_ffff,
                ;
            } else {
                assert((0u32 | c) & 0x7fff_ffff == c && ((0u32 | c) >> 31) == 0) by (bit_vector)
                    requires
                        c <= 0x7fff_ffff,
                ;
            }
        }
        r
    }

    /// The layout of the whole storage, as its description computes it.
    pub fn layout(&self) -> LayoutInfo {
        self.layout.layout()
    }

    pub fn capacity(&self) -> (r: u32)
        ensures
            r == self.spec_capacity(),
    {
        let r = (self.cap << 1) >> 1;
        proof {
            let c = self.cap;
            assert(((c << 1) >> 1) == (c & 0x7fff_ffff)) by (bit_vector);
        }
        r
    }

    pub fn len(&self) -> (r: u32)
        ensures
            r == self.len,
    {
        self.len
    }

    pub fn is_constant(&self) -> (r: bool)
        ensures
            r == self.spec_is_constant(),
    {
        (self.cap >> 31) != 0
    }

    pub fn is_full(&self) -> (r: bool)
        ensures
            r == (self.spec_capacity() == self.len),
    {
        self.capacity() == self.len
    }

    /// Record a new length; the caller vouches it fits the initialized
    /// part of the storage.
    pub fn set_len(&mut self, new_len: u32)
        ensures
            *final(self) == (Header { len: new_len, ..*old(self) }),
    {
        self.len = new_len;
    }

    /// The raw layout description.
    pub fn raw_layout(&self) -> (r: &L)
        ensures
            *r == self.layout,
    {
        &self.layout
    }
}

} // verus!
