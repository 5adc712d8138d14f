//! Aligned arenas: the blocks of memory that the runtime is handed.
use crate::error::CubismError;
use core::marker::PhantomData;
use vstd::arithmetic::div_mod::{
    lemma_fundamental_div_mod, lemma_mod_multiples_vanish, lemma_mod_self_0, lemma_small_mod,
};
use vstd::prelude::*;

verus! {

/// A structure of the runtime that has to sit at an aligned address.
pub trait Aligned {
    /// The alignment, in bytes, that the runtime demands of the structure.
    spec fn spec_alignment() -> usize;

    /// The alignment, in bytes, that the runtime demands of the structure.
    fn alignment() -> (a: usize)
        ensures
            a == Self::spec_alignment(),
            a > 0,
    ;
}

/// Size and alignment of a block of memory.
#[derive(Clone, Copy, Debug)]
pub struct Layout {
    size: usize,
    align: usize,
}

impl Layout {
    /// The size of the block in bytes.
    pub closed spec fn spec_size(&self) -> usize {
        self.size
    }

    /// The alignment of the block in bytes.
    pub closed spec fn spec_align(&self) -> usize {
        self.align
    }

    /// The size of the block in bytes.
    #[verifier::when_used_as_spec(spec_size)]
    pub fn size(&self) -> (r: usize)
        ensures
            r == self.spec_size(),
    {
        self.size
    }

    /// The alignment of the block in bytes.
    #[verifier::when_used_as_spec(spec_align)]
    pub fn align(&self) -> (r: usize)
        ensures
            r == self.spec_align(),
    {
        self.align
    }
}

/// Whether `address` is a multiple of `align`.
pub open spec fn is_aligned(address: int, align: int) -> bool {
    address % align == 0
}

/// The number of bytes from `address` up to the next multiple of `align`,
/// which is `address` itself if it is one.
pub open spec fn spec_padding_for(address: usize, align: usize) -> usize {
    ((align - address % align) % (align as int)) as usize
}

/// The number of bytes from `address` up to the next multiple of `align`,
/// which is `address` itself if it is one.
#[verifier::when_used_as_spec(spec_padding_for)]
pub fn padding_for(address: usize, align: usize) -> (r: usize)
    requires
        align > 0,
    ensures
        r == spec_padding_for(address, align),
        r < align,
        is_aligned(address + r, align as int),
        forall|p: int| 0 <= p < r ==> !#[trigger] is_aligned(address + p, align as int),
{
    let rem = address % align;
    let r = if rem == 0 {
        0
    } else {
        align - rem
    };
    proof {
        lemma_padding(address as int, align as int, r as int);
    }
    r
}

/// The distance from an address to the next multiple of `align` is what is
/// missing from the remainder of the address to `align`, and no address in
/// between is a multiple.
proof fn lemma_padding(address: int, align: int, r: int)
    requires
        0 <= address,
        0 < align,
        r == if address % align == 0 {
            0
        } else {
            align - address % align
        },
    ensures
        0 <= r < align,
        r == (align - address % align) % align,
        is_aligned(address + r, align),
        forall|p: int| 0 <= p < r ==> !#[trigger] is_aligned(address + p, align),
{
    let q = address / align;
    let rem = address % align;
    lemma_fundamental_div_mod(address, align);
    assert(address == align * q + rem);
    if rem == 0 {
        lemma_mod_self_0(align);
    } else {
        lemma_small_mod((align - rem) as nat, align as nat);
        assert(address + r == align * (q + 1) + 0) by (nonlinear_arith)
            requires
                address == align * q + rem,
                r == align - rem,
        ;
        lemma_mod_multiples_vanish(q + 1, 0, align);
        lemma_small_mod(0, align as nat);
    }
    assert forall|p: int| 0 <= p < r implies !#[trigger] is_aligned(address + p, align) by {
        assert(address + p == align * q + (rem + p));
        lemma_mod_multiples_vanish(q, rem + p, align);
        lemma_small_mod((rem + p) as nat, align as nat);
    }
}

/// The address of the first byte of a vector's buffer, as `Vec::as_ptr`
/// gives it. Nothing is claimed of the number: it is the allocator's choice.
#[verifier::external_body]
fn base_address(buf: &Vec<u8>) -> (addr: usize) {
    buf.as_ptr() as usize
}

/// What an arena is to its users: where the block starts, how large it is,
/// how it is aligned, and the bytes that it holds.
pub struct ArenaView {
    /// The address of the first byte of the block.
    pub address: usize,
    /// The size of the block in bytes.
    pub size: usize,
    /// The alignment of the block in bytes.
    pub align: usize,
    /// The bytes of the block.
    pub bytes: Seq<u8>,
}

impl ArenaView {
    /// The block starts at a multiple of its alignment and holds as many
    /// bytes as its size says.
    pub open spec fn wf(self) -> bool {
        &&& self.align > 0
        &&& self.address % self.align == 0
        &&& self.bytes.len() == self.size
    }
}

/// A block of memory that has the alignment of `T`.
///
/// The block is owned by the arena alone. It never moves and never changes
/// its size, and it is given back when the arena is dropped. The runtime
/// works on the block through its address; what it writes there it writes
/// behind the back of this type, whose contracts speak of single calls.
#[derive(Debug)]
pub struct AlignedMemory<T: Aligned> {
    buf: Vec<u8>,
    base: usize,
    offset: usize,
    layout: Layout,
    _marker: PhantomData<T>,
}

impl<T: Aligned> View for AlignedMemory<T> {
    type V = ArenaView;

    closed spec fn view(&self) -> ArenaView {
        ArenaView {
            address: (self.base + self.offset) as usize,
            size: self.layout.size,
            align: self.layout.align,
            bytes: self.buf@.subrange(self.offset as int, self.offset + self.layout.size),
        }
    }
}

impl<T: Aligned> AlignedMemory<T> {
    #[verifier::type_invariant]
    spec fn inv(self) -> bool {
        &&& self.layout.align == T::spec_alignment()
        &&& self.layout.align > 0
        &&& self.base + self.offset <= usize::MAX
        &&& (self.base + self.offset) % (self.layout.align as int) == 0
        &&& self.offset + self.layout.size <= self.buf@.len() <= usize::MAX
    }

    /// Allocates a block of `size` bytes at the alignment of `T`.
    ///
    /// Whether memory can be had is the allocator's decision; a block that
    /// cannot be had is reported as an `AllocationFailure`, and so is a size
    /// that leaves no room for the alignment.
    pub fn new(size: usize) -> (r: Result<Self, CubismError>)
        ensures
            match r {
                Ok(m) => {
                    &&& m@.size == size
                    &&& m@.align == T::spec_alignment()
                    &&& m@.address % m@.align == 0
                    &&& m@.bytes.len() == size
                },
                Err(e) => e is AllocationFailure,
            },
            size + T::spec_alignment() - 1 > usize::MAX ==> r is Err,
    {
        let align = T::alignment();
        let capacity = match size.checked_add(align - 1) {
            Some(c) => c,
            None => {
                return Err(CubismError::AllocationFailure);
            },
        };
        let mut buf: Vec<u8> = Vec::new();
        if buf.try_reserve(capacity).is_err() {
            return Err(CubismError::AllocationFailure);
        }
        buf.resize(capacity, 0u8);
        let base = base_address(&buf);
        let offset = padding_for(base, align);
        if base.checked_add(offset).is_none() {
            return Err(CubismError::AllocationFailure);
        }
        Ok(
            AlignedMemory {
                buf,
                base,
                offset,
                layout: Layout { size, align },
                _marker: PhantomData,
            },
        )
    }

    /// States what holds of every arena: the block has the alignment of `T`
    /// and starts at a multiple of it. The call does nothing.
    pub fn well_formed(&self)
        ensures
            self@.wf(),
            self@.align == T::spec_alignment(),
    {
        proof {
            use_type_invariant(self);
        }
    }

    /// The size and the alignment that the block was allocated with.
    pub fn layout(&self) -> (r: &Layout)
        ensures
            r.size() == self@.size,
            r.align() == self@.align,
            r.align() == T::spec_alignment(),
    {
        proof {
            use_type_invariant(self);
        }
        &self.layout
    }

    /// The address of the block, for reading. It is a multiple of the
    /// alignment of `T`.
    pub fn as_ptr(&self) -> (r: usize)
        ensures
            r == self@.address,
            r % T::spec_alignment() == 0,
    {
        proof {
            use_type_invariant(self);
        }
        self.base + self.offset
    }

    /// The address of the block, for writing. It is a multiple of the
    /// alignment of `T`.
    pub fn as_mut_ptr(&mut self) -> (r: usize)
        ensures
            r == old(self)@.address,
            r % T::spec_alignment() == 0,
            *final(self) == *old(self),
    {
        proof {
            use_type_invariant(&*self);
        }
        self.base + self.offset
    }

    /// Returns the bytes of the block.
    pub fn as_slice(&self) -> (r: &[u8])
        ensures
            r@ == self@.bytes,
            r@.len() == self@.size,
    {
        proof {
            use_type_invariant(self);
        }
        let whole = self.buf.as_slice();
        let end: usize = self.offset + self.layout.size;
        &whole[self.offset..end]
    }

    /// Fills the block with a copy of `data`, which has the size of the block.
    pub(crate) fn copy_from_slice(&mut self, data: &[u8])
        requires
            data@.len() == old(self)@.size,
        ensures
            final(self)@ == (ArenaView { bytes: data@, ..old(self)@ }),
    {
        proof {
            use_type_invariant(&*self);
        }
        let mut i: usize = 0;
        while i < data.len()
            invariant
                i <= data@.len(),
                data@.len() == self.layout.size,
                self.layout == old(self).layout,
                self.base == old(self).base,
                self.offset == old(self).offset,
                self.inv(),
                self.buf@.len() == old(self).buf@.len(),
                forall|j: int| 0 <= j < i ==> self.buf@[self.offset + j] == data@[j],
            decreases data@.len() - i,
        {
            let at: usize = self.offset + i;
            let byte: u8 = data[i];
            self.buf[at] = byte;
            i += 1;
        }
        assert(self@.bytes =~= data@);
    }
}

} // verus!
