//! The moc struct.
use crate::error::CubismError;
use crate::mem::AlignedMemory;
use crate::sys::{csmAlignofMoc, csmAlignofModel, csmMoc, csmModel};
use crate::text::decode;
use vstd::prelude::*;
use vstd::utf8::{decode_utf8, valid_utf8};

verus! {

/// What the runtime reports of one parameter of a moc.
#[derive(Debug)]
pub struct RawParameter {
    /// The bytes of the parameter's id, without the terminating zero.
    pub id: Vec<u8>,
    /// The bits of the parameter's default value.
    pub default: u32,
    /// The bits of the parameter's largest value.
    pub max: u32,
    /// The bits of the parameter's smallest value.
    pub min: u32,
}

/// Whether every id of a list is valid UTF-8.
pub open spec fn all_valid(raw: Seq<Seq<u8>>) -> bool {
    forall|i: int| 0 <= i < raw.len() ==> valid_utf8(#[trigger] raw[i])
}

/// The ids of a list, each read as UTF-8 text.
pub open spec fn decode_all(raw: Seq<Seq<u8>>) -> Seq<Seq<char>> {
    Seq::new(raw.len(), |i: int| decode_utf8(raw[i]))
}

/// The bytes of each id of a list.
pub open spec fn bytes_of(raw: Seq<Vec<u8>>) -> Seq<Seq<u8>> {
    Seq::new(raw.len(), |i: int| raw[i]@)
}

/// The text of each id of a list.
pub open spec fn texts_of(ids: Seq<String>) -> Seq<Seq<char>> {
    Seq::new(ids.len(), |i: int| ids[i]@)
}

/// The bytes of the id of each parameter of a list.
pub open spec fn ids_of(parameters: Seq<RawParameter>) -> Seq<Seq<u8>> {
    Seq::new(parameters.len(), |i: int| parameters[i].id@)
}

/// The default value of each parameter of a list.
pub open spec fn defaults_of(parameters: Seq<RawParameter>) -> Seq<u32> {
    Seq::new(parameters.len(), |i: int| parameters[i].default)
}

/// The largest value of each parameter of a list.
pub open spec fn maxima_of(parameters: Seq<RawParameter>) -> Seq<u32> {
    Seq::new(parameters.len(), |i: int| parameters[i].max)
}

/// The smallest value of each parameter of a list.
pub open spec fn minima_of(parameters: Seq<RawParameter>) -> Seq<u32> {
    Seq::new(parameters.len(), |i: int| parameters[i].min)
}

/// Whether every id that the runtime reports of a moc is valid UTF-8.
pub open spec fn ids_are_valid(
    parameters: Seq<RawParameter>,
    part_ids: Seq<Vec<u8>>,
    drawable_ids: Seq<Vec<u8>>,
) -> bool {
    &&& all_valid(ids_of(parameters))
    &&& all_valid(bytes_of(part_ids))
    &&& all_valid(bytes_of(drawable_ids))
}

/// A moc as its users see it.
pub struct MocView {
    /// The address of the arena that holds the revived moc.
    pub address: usize,
    /// The size of that arena in bytes.
    pub size: usize,
    /// Whether the ids and the parameter bounds have been filled in.
    pub populated: bool,
    /// The parameter ids, in the runtime's order.
    pub parameter_ids: Seq<Seq<char>>,
    /// The part ids, in the runtime's order.
    pub part_ids: Seq<Seq<char>>,
    /// The drawable ids, in the runtime's order.
    pub drawable_ids: Seq<Seq<char>>,
    /// The bits of the default value of each parameter.
    pub parameter_default: Seq<u32>,
    /// The bits of the largest value of each parameter.
    pub parameter_max: Seq<u32>,
    /// The bits of the smallest value of each parameter.
    pub parameter_min: Seq<u32>,
}

impl MocView {
    /// A moc that the runtime has just revived in the arena at `address`: its
    /// ids and bounds are still to be filled in.
    pub open spec fn fresh(address: usize, size: usize) -> MocView {
        MocView {
            address,
            size,
            populated: false,
            parameter_ids: Seq::empty(),
            part_ids: Seq::empty(),
            drawable_ids: Seq::empty(),
            parameter_default: Seq::empty(),
            parameter_max: Seq::empty(),
            parameter_min: Seq::empty(),
        }
    }

    /// This moc with its ids and bounds filled in from what the runtime
    /// reports.
    pub open spec fn populated_with(
        self,
        parameters: Seq<RawParameter>,
        part_ids: Seq<Vec<u8>>,
        drawable_ids: Seq<Vec<u8>>,
    ) -> MocView {
        MocView {
            populated: true,
            parameter_ids: decode_all(ids_of(parameters)),
            part_ids: decode_all(bytes_of(part_ids)),
            drawable_ids: decode_all(bytes_of(drawable_ids)),
            parameter_default: defaults_of(parameters),
            parameter_max: maxima_of(parameters),
            parameter_min: minima_of(parameters),
            ..self
        }
    }

    /// The three bound arrays run parallel to the parameter ids, and a moc
    /// that has not been populated has no ids at all.
    pub open spec fn wf(self) -> bool {
        &&& self.address % csmAlignofMoc == 0
        &&& self.parameter_default.len() == self.parameter_ids.len()
        &&& self.parameter_max.len() == self.parameter_ids.len()
        &&& self.parameter_min.len() == self.parameter_ids.len()
        &&& !self.populated ==> {
            &&& self.parameter_ids.len() == 0
            &&& self.part_ids.len() == 0
            &&& self.drawable_ids.len() == 0
        }
    }
}

/// This represents a moc.
///
/// A moc owns the arena that the runtime revived it in, the parameter, part
/// and drawable ids, and the minimum, maximum and default parameter values of
/// its models. Once its ids are filled in it never changes.
#[derive(Debug)]
pub struct Moc {
    mem: AlignedMemory<csmMoc>,
    populated: bool,
    ids: Ids,
}

/// The ids and the parameter bounds of a moc.
#[derive(Debug)]
struct Ids {
    part_ids: Vec<String>,
    param_ids: Vec<String>,
    drawable_ids: Vec<String>,
    param_def_val: Vec<u32>,
    param_max_val: Vec<u32>,
    param_min_val: Vec<u32>,
}

impl View for Moc {
    type V = MocView;

    closed spec fn view(&self) -> MocView {
        MocView {
            address: self.mem@.address,
            size: self.mem@.size,
            populated: self.populated,
            parameter_ids: texts_of(self.ids.param_ids@),
            part_ids: texts_of(self.ids.part_ids@),
            drawable_ids: texts_of(self.ids.drawable_ids@),
            parameter_default: self.ids.param_def_val@,
            parameter_max: self.ids.param_max_val@,
            parameter_min: self.ids.param_min_val@,
        }
    }
}

impl Moc {
    #[verifier::type_invariant]
    spec fn inv(self) -> bool {
        &&& self.mem@.address % csmAlignofMoc == 0
        &&& self.ids.param_def_val@.len() == self.ids.param_ids@.len()
        &&& self.ids.param_max_val@.len() == self.ids.param_ids@.len()
        &&& self.ids.param_min_val@.len() == self.ids.param_ids@.len()
        &&& !self.populated ==> {
            &&& self.ids.param_ids@.len() == 0
            &&& self.ids.part_ids@.len() == 0
            &&& self.ids.drawable_ids@.len() == 0
        }
    }

    /// Stages a compiled moc for the runtime to revive: allocates an arena of
    /// the size of `data` at the alignment of a moc, and copies `data` into it.
    pub fn stage(data: &[u8]) -> (r: Result<AlignedMemory<csmMoc>, CubismError>)
        ensures
            match r {
                Ok(mem) => {
                    &&& mem@.size == data@.len()
                    &&& mem@.align == csmAlignofMoc
                    &&& mem@.address % csmAlignofMoc == 0
                    &&& mem@.bytes == data@
                },
                Err(e) => e is AllocationFailure,
            },
            data@.len() + csmAlignofMoc - 1 > usize::MAX ==> r is Err,
    {
        let mut mem = match AlignedMemory::<csmMoc>::new(data.len()) {
            Ok(mem) => mem,
            Err(e) => {
                return Err(e);
            },
        };
        mem.copy_from_slice(data);
        Ok(mem)
    }

    /// The size that the runtime is told when it revives the moc staged in
    /// `mem`: the size of the arena, cut to the 32 bits that the runtime takes.
    pub fn revive_size(mem: &AlignedMemory<csmMoc>) -> (r: u32)
        ensures
            r == (mem@.size as int) % 0x1_0000_0000,
    {
        let size: u64 = mem.layout().size() as u64;
        assert(size as u32 == size % 0x1_0000_0000) by (bit_vector);
        #[verifier::truncate]
        (size as u32)
    }

    /// Takes over a staged arena once the runtime has revived the moc in it.
    ///
    /// `revived` is the address that the runtime returned from the revival. A
    /// null address means that the runtime does not accept the data.
    pub fn new(mem: AlignedMemory<csmMoc>, revived: usize) -> (r: Result<Self, CubismError>)
        ensures
            match r {
                Ok(moc) => {
                    &&& revived != 0
                    &&& moc@.wf()
                    &&& moc@ == MocView::fresh(mem@.address, mem@.size)
                },
                Err(e) => revived == 0 && e is VendorRejected,
            },
    {
        if revived == 0 {
            return Err(CubismError::VendorRejected);
        }
        mem.well_formed();
        let moc = Moc {
            mem,
            populated: false,
            ids: Ids {
                part_ids: Vec::new(),
                param_ids: Vec::new(),
                drawable_ids: Vec::new(),
                param_def_val: Vec::new(),
                param_max_val: Vec::new(),
                param_min_val: Vec::new(),
            },
        };
        assert(moc@.parameter_ids =~= Seq::empty());
        assert(moc@.part_ids =~= Seq::empty());
        assert(moc@.drawable_ids =~= Seq::empty());
        Ok(moc)
    }

    /// States what holds of every moc: see [`MocView::wf`]. The call does
    /// nothing.
    pub fn well_formed(&self)
        ensures
            self@.wf(),
    {
        proof {
            use_type_invariant(self);
        }
    }

    /// Returns the address of the revived moc, for reading.
    pub fn as_ptr(&self) -> (r: usize)
        ensures
            r == self@.address,
            r % csmAlignofMoc == 0,
    {
        proof {
            use_type_invariant(self);
        }
        self.mem.as_ptr()
    }

    /// Returns the address of the revived moc, for writing.
    pub fn as_mut_ptr(&mut self) -> (r: usize)
        ensures
            r == old(self)@.address,
            r % csmAlignofMoc == 0,
            *final(self) == *old(self),
    {
        self.mem.as_ptr()
    }

    /// Allocates the arena for a new model of this moc. `size` is the size
    /// that the runtime asks for a model of this moc.
    pub fn stage_model(&self, size: u32) -> (r: Result<AlignedMemory<csmModel>, CubismError>)
        ensures
            match r {
                Ok(mem) => {
                    &&& mem@.size == size
                    &&& mem@.align == csmAlignofModel
                    &&& mem@.address % csmAlignofModel == 0
                },
                Err(e) => e is AllocationFailure,
            },
            size + csmAlignofModel - 1 > usize::MAX ==> r is Err,
    {
        AlignedMemory::<csmModel>::new(size as usize)
    }

    /// Takes a staged arena as the memory of a new model, once the runtime has
    /// initialized a model of this moc in it.
    ///
    /// `initialized` is the address that the runtime returned from the
    /// initialization. A null address means that the runtime does not accept
    /// the memory.
    pub fn init_new_model(&self, mem: AlignedMemory<csmModel>, initialized: usize) -> (r: Result<
        AlignedMemory<csmModel>,
        CubismError,
    >)
        ensures
            match r {
                Ok(m) => initialized != 0 && m == mem,
                Err(e) => initialized == 0 && e is VendorRejected,
            },
    {
        if initialized == 0 {
            Err(CubismError::VendorRejected)
        } else {
            Ok(mem)
        }
    }

    /// Returns the part names.
    pub fn part_ids(&self) -> (r: &[String])
        ensures
            texts_of(r@) == self@.part_ids,
    {
        self.ids.part_ids.as_slice()
    }

    /// Returns the parameter names.
    pub fn parameter_ids(&self) -> (r: &[String])
        ensures
            texts_of(r@) == self@.parameter_ids,
    {
        self.ids.param_ids.as_slice()
    }

    /// Returns the drawable names.
    pub fn drawable_ids(&self) -> (r: &[String])
        ensures
            texts_of(r@) == self@.drawable_ids,
    {
        self.ids.drawable_ids.as_slice()
    }

    /// Returns the bits of the parameter max values.
    pub fn parameter_max(&self) -> (r: &[u32])
        ensures
            r@ == self@.parameter_max,
            r@.len() == self@.parameter_ids.len(),
    {
        proof {
            use_type_invariant(self);
        }
        self.ids.param_max_val.as_slice()
    }

    /// Returns the bits of the parameter min values.
    pub fn parameter_min(&self) -> (r: &[u32])
        ensures
            r@ == self@.parameter_min,
            r@.len() == self@.parameter_ids.len(),
    {
        proof {
            use_type_invariant(self);
        }
        self.ids.param_min_val.as_slice()
    }

    /// Returns the bits of the parameter default values.
    pub fn parameter_default(&self) -> (r: &[u32])
        ensures
            r@ == self@.parameter_default,
            r@.len() == self@.parameter_ids.len(),
    {
        proof {
            use_type_invariant(self);
        }
        self.ids.param_def_val.as_slice()
    }

    /// Whether the ids and the parameter bounds have been filled in.
    pub fn is_populated(&self) -> (r: bool)
        ensures
            r == self@.populated,
    {
        self.populated
    }

    /// Returns the number of drawables this moc has.
    pub fn drawable_count(&self) -> (r: usize)
        ensures
            r == self@.drawable_ids.len(),
    {
        self.ids.drawable_ids.len()
    }

    /// Returns the number of parameters this moc has.
    pub fn parameter_count(&self) -> (r: usize)
        ensures
            r == self@.parameter_ids.len(),
    {
        self.ids.param_ids.len()
    }

    /// Returns the number of parts this moc has.
    pub fn part_count(&self) -> (r: usize)
        ensures
            r == self@.part_ids.len(),
    {
        self.ids.part_ids.len()
    }

    /// Fills in the ids and the parameter bounds of the moc, from what the
    /// runtime reports of the first model that was built from it.
    ///
    /// This is done once in the life of a moc. The moc is populated as a
    /// whole or left as it was: one id that is not valid UTF-8 makes the call
    /// fail with `InvalidId`.
    pub fn init_ids(
        &mut self,
        parameters: &Vec<RawParameter>,
        part_ids: &Vec<Vec<u8>>,
        drawable_ids: &Vec<Vec<u8>>,
    ) -> (r: Result<(), CubismError>)
        requires
            !old(self)@.populated,
        ensures
            final(self)@.wf(),
            match r {
                Ok(_) => {
                    &&& ids_are_valid(parameters@, part_ids@, drawable_ids@)
                    &&& final(self)@ == old(self)@.populated_with(
                        parameters@,
                        part_ids@,
                        drawable_ids@,
                    )
                },
                Err(e) => {
                    &&& e is InvalidId
                    &&& !ids_are_valid(parameters@, part_ids@, drawable_ids@)
                    &&& *final(self) == *old(self)
                },
            },
    {
        proof {
            use_type_invariant(&*self);
        }
        let mut param_ids: Vec<String> = Vec::with_capacity(parameters.len());
        let mut param_def_val: Vec<u32> = Vec::with_capacity(parameters.len());
        let mut param_max_val: Vec<u32> = Vec::with_capacity(parameters.len());
        let mut param_min_val: Vec<u32> = Vec::with_capacity(parameters.len());
        let mut i: usize = 0;
        while i < parameters.len()
            invariant
                *self == *old(self),
                self.inv(),
                i <= parameters@.len(),
                param_ids@.len() == i,
                param_def_val@.len() == i,
                param_max_val@.len() == i,
                param_min_val@.len() == i,
                forall|j: int| 0 <= j < i ==> valid_utf8(#[trigger] parameters@[j].id@),
                forall|j: int|
                    0 <= j < i ==> (#[trigger] param_ids@[j])@ == decode_utf8(parameters@[j].id@),
                forall|j: int|
                    0 <= j < i ==> #[trigger] param_def_val@[j] == parameters@[j].default,
                forall|j: int| 0 <= j < i ==> #[trigger] param_max_val@[j] == parameters@[j].max,
                forall|j: int| 0 <= j < i ==> #[trigger] param_min_val@[j] == parameters@[j].min,
            decreases parameters@.len() - i,
        {
            let parameter = &parameters[i];
            match decode(parameter.id.as_slice()) {
                Ok(id) => {
                    param_ids.push(id);
                },
                Err(e) => {
                    assert(!valid_utf8(ids_of(parameters@)[i as int]));
                    return Err(CubismError::from(e));
                },
            }
            param_def_val.push(parameter.default);
            param_max_val.push(parameter.max);
            param_min_val.push(parameter.min);
            i += 1;
        }
        let part_ids = match Self::init_id_vec(part_ids) {
            Ok(ids) => ids,
            Err(e) => {
                return Err(e);
            },
        };
        let drawable_ids = match Self::init_id_vec(drawable_ids) {
            Ok(ids) => ids,
            Err(e) => {
                return Err(e);
            },
        };
        assert(texts_of(param_ids@) =~= decode_all(ids_of(parameters@)));
        assert(param_def_val@ =~= defaults_of(parameters@));
        assert(param_max_val@ =~= maxima_of(parameters@));
        assert(param_min_val@ =~= minima_of(parameters@));
        self.populated = true;
        self.ids = Ids {
            part_ids,
            param_ids,
            drawable_ids,
            param_def_val,
            param_max_val,
            param_min_val,
        };
        Ok(())
    }

    /// Reads each id of a list as UTF-8 text.
    ///
    /// The list is decoded as a whole or not at all: one id that is not valid
    /// UTF-8 makes the call fail with `InvalidId`.
    pub fn init_id_vec(raw: &Vec<Vec<u8>>) -> (r: Result<Vec<String>, CubismError>)
        ensures
            match r {
                Ok(ids) => {
                    &&& all_valid(bytes_of(raw@))
                    &&& texts_of(ids@) == decode_all(bytes_of(raw@))
                },
                Err(e) => e is InvalidId && !all_valid(bytes_of(raw@)),
            },
    {
        let mut out: Vec<String> = Vec::with_capacity(raw.len());
        let mut i: usize = 0;
        while i < raw.len()
            invariant
                i <= raw@.len(),
                out@.len() == i,
                forall|j: int| 0 <= j < i ==> valid_utf8(#[trigger] raw@[j]@),
                forall|j: int| 0 <= j < i ==> (#[trigger] out@[j])@ == decode_utf8(raw@[j]@),
            decreases raw@.len() - i,
        {
            match decode(raw[i].as_slice()) {
                Ok(id) => {
                    out.push(id);
                },
                Err(e) => {
                    assert(!valid_utf8(bytes_of(raw@)[i as int]));
                    return Err(CubismError::from(e));
                },
            }
            i += 1;
        }
        assert(texts_of(out@) =~= decode_all(bytes_of(raw@)));
        Ok(out)
    }
}

} // verus!
