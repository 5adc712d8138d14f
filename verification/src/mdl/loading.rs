//! Loading a model: the conversation with the runtime.
//!
//! The runtime can only be called from outside this library. So a model is
//! loaded in steps: the library says what the runtime is to be asked, the
//! caller asks and hands the answer back, and the library decides what
//! follows from it. The caller is a loop; every decision is made here.
use crate::error::CubismError;
use crate::mdl::moc::{ids_are_valid, Moc, MocView, RawParameter};
use crate::mdl::model::{fits, InstanceData, Model, ModelState, ModelView};
use crate::mem::AlignedMemory;
use crate::sys::{csmAlignofMoc, csmAlignofModel, csmMoc, csmModel};
use std::rc::Rc;
use vstd::prelude::*;

verus! {

/// What the runtime is to be asked next.
#[derive(Clone, Copy, Debug, PartialEq, Eq, Structural)]
pub enum Request {
    /// Revive the moc that lies at `address`, in a block of which the runtime
    /// is told that it has `size` bytes. Answered by the address that the
    /// runtime returns.
    Revive { address: usize, size: u32 },
    /// Tell the size of a model of the moc at `moc`. Answered by that size.
    SizeofModel { moc: usize },
    /// Initialize a model of the moc at `moc` in the block of `size` bytes at
    /// `address`. Answered by the address that the runtime returns.
    InitializeModel { moc: usize, address: usize, size: u32 },
    /// Report the ids and the parameter bounds of the moc, as they are read
    /// through the model at `model`. Answered by those.
    ReadIds { model: usize },
    /// Report the `parameters` parameter values, the `parts` part opacities,
    /// the canvas and the `drawables` drawables of the model at `model`.
    /// Answered by those.
    ReadInstance { model: usize, parameters: usize, parts: usize, drawables: usize },
}

/// What the runtime has answered.
#[derive(Debug)]
pub enum Reply {
    /// The address that a revival or an initialization returned; null where
    /// the runtime refused.
    Address(usize),
    /// The size of a model.
    Size(u32),
    /// The parameters, each with its id and bounds, the part ids and the
    /// drawable ids of a moc. An id is the bytes of a C string, without the
    /// terminating zero.
    Ids { parameters: Vec<RawParameter>, parts: Vec<Vec<u8>>, drawables: Vec<Vec<u8>> },
    /// The state of a model.
    Instance(InstanceData),
}

/// The parameter values and part opacities that a clone takes over from the
/// model that it is cloned from.
#[derive(Debug)]
struct Inherited {
    parameter_values: Vec<u32>,
    part_opacities: Vec<u32>,
}

/// The moc of a model that is being loaded: a new one, which this
/// conversation alone holds and will populate, or a populated moc that other
/// models share, with the values that a clone inherits.
#[derive(Debug)]
enum Definition {
    Fresh(Moc),
    Shared(Rc<Moc>, Option<Inherited>),
}

#[derive(Debug)]
enum Phase {
    Reviving { staged: AlignedMemory<csmMoc> },
    Sizing { definition: Definition },
    Initializing { definition: Definition, mem: AlignedMemory<csmModel>, size: u32 },
    Identifying { fresh: Moc, mem: AlignedMemory<csmModel> },
    Reading { moc: Rc<Moc>, inherited: Option<Inherited>, mem: AlignedMemory<csmModel> },
}

/// A model that is being loaded: where the conversation with the runtime
/// stands.
#[derive(Debug)]
pub struct Loading {
    phase: Phase,
}

/// How far a conversation has come.
#[derive(Debug)]
pub enum Progress {
    /// The runtime has to be asked once more.
    Pending(Loading),
    /// The model is loaded.
    Ready(Model),
}

/// Where the loading of a model stands, as its users see it.
pub enum LoadingView {
    /// The bytes `staged` of a compiled moc lie in the arena at `address` and
    /// wait for the runtime to revive the moc.
    Reviving { address: usize, staged: Seq<u8> },
    /// The moc is revived, and the size of a model of it is to be asked. A
    /// clone carries the values that it inherits.
    Sizing { moc: MocView, inherited: Option<(Seq<u32>, Seq<u32>)> },
    /// An arena of `size` bytes at `address` waits for the runtime to
    /// initialize a model in it.
    Initializing {
        moc: MocView,
        inherited: Option<(Seq<u32>, Seq<u32>)>,
        address: usize,
        size: u32,
    },
    /// The model at `address` is the first of its moc, whose ids are to be
    /// read through it.
    Identifying { moc: MocView, address: usize },
    /// The model at `address` is initialized, its moc is complete, and its
    /// state is to be read.
    Reading { moc: MocView, inherited: Option<(Seq<u32>, Seq<u32>)>, address: usize },
}

/// Whether inherited values are as many as the moc has parameters and parts.
pub open spec fn inherited_fits(moc: MocView, inherited: Option<(Seq<u32>, Seq<u32>)>) -> bool {
    inherited matches Some((parameter_values, part_opacities)) ==> {
        &&& parameter_values.len() == moc.parameter_ids.len()
        &&& part_opacities.len() == moc.part_ids.len()
    }
}

impl LoadingView {
    /// Arenas are aligned for what they hold; values are inherited for a
    /// populated moc only, and are as many as it has parameters and parts;
    /// the ids are read of a moc that has none yet, and the state of a model
    /// is read when its moc is populated.
    pub open spec fn wf(self) -> bool {
        match self {
            LoadingView::Reviving { address, staged } => {
                &&& address % csmAlignofMoc == 0
                &&& staged.len() <= usize::MAX
            },
            LoadingView::Sizing { moc, inherited } => {
                &&& moc.wf()
                &&& inherited.is_some() ==> moc.populated
                &&& inherited_fits(moc, inherited)
            },
            LoadingView::Initializing { moc, inherited, address, size } => {
                &&& moc.wf()
                &&& inherited.is_some() ==> moc.populated
                &&& inherited_fits(moc, inherited)
                &&& address % csmAlignofModel == 0
            },
            LoadingView::Identifying { moc, address } => {
                &&& moc.wf()
                &&& !moc.populated
                &&& address % csmAlignofModel == 0
            },
            LoadingView::Reading { moc, inherited, address } => {
                &&& moc.wf()
                &&& moc.populated
                &&& inherited_fits(moc, inherited)
                &&& address % csmAlignofModel == 0
            },
        }
    }

    /// The number of requests that are still to be answered before the model
    /// is there, this one included.
    pub open spec fn requests_left(self) -> nat {
        match self {
            LoadingView::Reviving { address, staged } => 5,
            LoadingView::Sizing { moc, inherited } => if moc.populated {
                3
            } else {
                4
            },
            LoadingView::Initializing { moc, inherited, address, size } => if moc.populated {
                2
            } else {
                3
            },
            LoadingView::Identifying { moc, address } => 2,
            LoadingView::Reading { moc, inherited, address } => 1,
        }
    }

    /// What the runtime is to be asked at this point.
    pub open spec fn request(self) -> Request {
        match self {
            LoadingView::Reviving { address, staged } => Request::Revive {
                address,
                size: ((staged.len() as int) % 0x1_0000_0000) as u32,
            },
            LoadingView::Sizing { moc, inherited } => Request::SizeofModel { moc: moc.address },
            LoadingView::Initializing { moc, inherited, address, size } => {
                Request::InitializeModel { moc: moc.address, address, size }
            },
            LoadingView::Identifying { moc, address } => Request::ReadIds { model: address },
            LoadingView::Reading { moc, inherited, address } => Request::ReadInstance {
                model: address,
                parameters: moc.parameter_ids.len() as usize,
                parts: moc.part_ids.len() as usize,
                drawables: moc.drawable_ids.len() as usize,
            },
        }
    }
}

/// Every address that the runtime is handed is aligned for what lies there:
/// a moc at a multiple of 64, a model at a multiple of 16.
pub proof fn lemma_requests_are_aligned(loading: LoadingView)
    requires
        loading.wf(),
    ensures
        match loading.request() {
            Request::Revive { address, size } => address % csmAlignofMoc == 0,
            Request::SizeofModel { moc } => moc % csmAlignofMoc == 0,
            Request::InitializeModel { moc, address, size } => {
                &&& moc % csmAlignofMoc == 0
                &&& address % csmAlignofModel == 0
            },
            Request::ReadIds { model } => model % csmAlignofModel == 0,
            Request::ReadInstance { model, parameters, parts, drawables } => model
                % csmAlignofModel == 0,
        },
{
}

/// The ids of a moc are read once, through the first model that is built
/// from it, and before the state of that model is read: the runtime is asked
/// for ids exactly where the moc is not populated yet, and for the state of
/// a model only where the moc is.
pub proof fn lemma_ids_come_first(loading: LoadingView)
    requires
        loading.wf(),
    ensures
        loading.request() is ReadIds ==> (loading matches LoadingView::Identifying { moc, address }
            && !moc.populated),
        loading.request() is ReadInstance ==> (loading matches LoadingView::Reading {
            moc,
            inherited,
            address,
        } && moc.populated),
{
}

/// What becomes of a conversation that stood at `before` when the runtime
/// answers `reply`.
///
/// An answer that is not the answer to the question asked ends the
/// conversation with an error, and so does a null address, an id that is not
/// UTF-8, and a state that does not fit the moc. Whether the arena for a
/// model can be had is the allocator's decision. In every other case the
/// conversation goes on in its fixed order: revive, size, initialize, read
/// the ids if the moc is new, read the state.
pub open spec fn advanced(
    before: LoadingView,
    reply: Reply,
    r: Result<Progress, CubismError>,
) -> bool {
    match (before, reply) {
        (LoadingView::Reviving { address, staged }, Reply::Address(revived)) => {
            if revived == 0 {
                r matches Err(e) && e is VendorRejected
            } else {
                r matches Ok(Progress::Pending(next)) && next@ == (LoadingView::Sizing {
                    moc: MocView::fresh(address, staged.len() as usize),
                    inherited: None,
                })
            }
        },
        (LoadingView::Sizing { moc, inherited }, Reply::Size(size)) => {
            match r {
                Ok(Progress::Pending(next)) => {
                    next@ matches LoadingView::Initializing {
                        moc: next_moc,
                        inherited: next_inherited,
                        address,
                        size: next_size,
                    } && next_moc == moc && next_inherited == inherited && next_size == size
                },
                Ok(Progress::Ready(_)) => false,
                Err(e) => e is AllocationFailure,
            }
        },
        (
            LoadingView::Initializing { moc, inherited, address, size },
            Reply::Address(initialized),
        ) => {
            if initialized == 0 {
                r matches Err(e) && e is VendorRejected
            } else if moc.populated {
                r matches Ok(Progress::Pending(next)) && next@ == (LoadingView::Reading {
                    moc,
                    inherited,
                    address,
                })
            } else {
                r matches Ok(Progress::Pending(next)) && next@ == (LoadingView::Identifying {
                    moc,
                    address,
                })
            }
        },
        (
            LoadingView::Identifying { moc, address },
            Reply::Ids { parameters, parts, drawables },
        ) => {
            if ids_are_valid(parameters@, parts@, drawables@) {
                r matches Ok(Progress::Pending(next)) && next@ == (LoadingView::Reading {
                    moc: moc.populated_with(parameters@, parts@, drawables@),
                    inherited: None,
                    address,
                })
            } else {
                r matches Err(e) && e is InvalidId
            }
        },
        (LoadingView::Reading { moc, inherited, address }, Reply::Instance(data)) => {
            if fits(moc, data) {
                r matches Ok(Progress::Ready(model)) && model.wf() && model@ == (ModelView {
                    address,
                    moc,
                    parameter_values: match inherited {
                        Some((parameter_values, part_opacities)) => parameter_values,
                        None => data.parameter_values@,
                    },
                    part_opacities: match inherited {
                        Some((parameter_values, part_opacities)) => part_opacities,
                        None => data.part_opacities@,
                    },
                    canvas: data.canvas,
                    drawables: data.drawables@,
                    state: ModelState::Constructed,
                })
            } else {
                r matches Err(e) && e is Other
            }
        },
        _ => r matches Err(e) && e is Other,
    }
}

/// A conversation ends: each answer that does not end it with an error
/// leaves one request less to be answered, and the answer to the last request
/// gives the model. A new model is there after five answers, a clone or
/// another model of a moc after three.
pub proof fn lemma_conversation_ends(
    before: LoadingView,
    reply: Reply,
    r: Result<Progress, CubismError>,
)
    requires
        before.wf(),
        advanced(before, reply, r),
    ensures
        r matches Ok(Progress::Pending(next)) ==> next@.requests_left() + 1
            == before.requests_left(),
        r matches Ok(Progress::Ready(model)) ==> before.requests_left() == 1,
        before.requests_left() == 1 ==> !(r matches Ok(Progress::Pending(_))),
{
}

impl Inherited {
    spec fn view(self) -> (Seq<u32>, Seq<u32>) {
        (self.parameter_values@, self.part_opacities@)
    }
}

spec fn view_of(inherited: Option<Inherited>) -> Option<(Seq<u32>, Seq<u32>)> {
    match inherited {
        Some(i) => Some(i.view()),
        None => None,
    }
}

impl Definition {
    spec fn moc(self) -> MocView {
        match self {
            Definition::Fresh(moc) => moc@,
            Definition::Shared(moc, inherited) => moc@,
        }
    }

    spec fn is_fresh(self) -> bool {
        self is Fresh
    }

    spec fn inherited(self) -> Option<(Seq<u32>, Seq<u32>)> {
        match self {
            Definition::Fresh(moc) => None,
            Definition::Shared(moc, inherited) => view_of(inherited),
        }
    }

    fn get(&self) -> (r: &Moc)
        ensures
            r@ == self.moc(),
            r@.wf(),
    {
        let moc: &Moc = match self {
            Definition::Fresh(moc) => moc,
            Definition::Shared(moc, inherited) => moc,
        };
        moc.well_formed();
        moc
    }
}

impl View for Loading {
    type V = LoadingView;

    closed spec fn view(&self) -> LoadingView {
        match self.phase {
            Phase::Reviving { staged } => LoadingView::Reviving {
                address: staged@.address,
                staged: staged@.bytes,
            },
            Phase::Sizing { definition } => LoadingView::Sizing {
                moc: definition.moc(),
                inherited: definition.inherited(),
            },
            Phase::Initializing { definition, mem, size } => LoadingView::Initializing {
                moc: definition.moc(),
                inherited: definition.inherited(),
                address: mem@.address,
                size,
            },
            Phase::Identifying { fresh, mem } => LoadingView::Identifying {
                moc: fresh@,
                address: mem@.address,
            },
            Phase::Reading { moc, inherited, mem } => LoadingView::Reading {
                moc: moc@,
                inherited: view_of(inherited),
                address: mem@.address,
            },
        }
    }
}

impl Loading {
    #[verifier::type_invariant]
    spec fn inv(self) -> bool {
        &&& self@.wf()
        &&& match self.phase {
            Phase::Reviving { staged } => staged@.bytes.len() == staged@.size,
            Phase::Sizing { definition } => definition.is_fresh() == !definition.moc().populated,
            Phase::Initializing { definition, mem, size } => definition.is_fresh()
                == !definition.moc().populated,
            _ => true,
        }
    }

    /// The conversation that revives the moc staged in `mem`.
    pub(crate) fn revive(mem: AlignedMemory<csmMoc>) -> (r: Self)
        ensures
            r@.wf(),
            r@ == (LoadingView::Reviving { address: mem@.address, staged: mem@.bytes }),
    {
        mem.well_formed();
        Loading { phase: Phase::Reviving { staged: mem } }
    }

    /// The conversation that builds another model of `moc`, which starts
    /// with the given parameter values and part opacities.
    pub(crate) fn clone_of(
        moc: Rc<Moc>,
        parameter_values: Vec<u32>,
        part_opacities: Vec<u32>,
    ) -> (r: Self)
        requires
            moc@.wf(),
            moc@.populated,
            parameter_values@.len() == moc@.parameter_ids.len(),
            part_opacities@.len() == moc@.part_ids.len(),
        ensures
            r@.wf(),
            r@ == (LoadingView::Sizing {
                moc: moc@,
                inherited: Some((parameter_values@, part_opacities@)),
            }),
    {
        Loading {
            phase: Phase::Sizing {
                definition: Definition::Shared(
                    moc,
                    Some(Inherited { parameter_values, part_opacities }),
                ),
            },
        }
    }

    /// The conversation that builds another model of `moc`, which starts
    /// with the values that the runtime gives it.
    pub(crate) fn another_of(moc: Rc<Moc>) -> (r: Self)
        requires
            moc@.wf(),
            moc@.populated,
        ensures
            r@.wf(),
            r@ == (LoadingView::Sizing { moc: moc@, inherited: None }),
    {
        Loading { phase: Phase::Sizing { definition: Definition::Shared(moc, None) } }
    }

    /// What the runtime is to be asked next.
    pub fn request(&self) -> (r: Request)
        ensures
            r == self@.request(),
            self@.wf(),
    {
        proof {
            use_type_invariant(self);
        }
        match &self.phase {
            Phase::Reviving { staged } => Request::Revive {
                address: staged.as_ptr(),
                size: Moc::revive_size(staged),
            },
            Phase::Sizing { definition } => Request::SizeofModel { moc: definition.get().as_ptr() },
            Phase::Initializing { definition, mem, size } => Request::InitializeModel {
                moc: definition.get().as_ptr(),
                address: mem.as_ptr(),
                size: *size,
            },
            Phase::Identifying { fresh, mem } => Request::ReadIds { model: mem.as_ptr() },
            Phase::Reading { moc, inherited, mem } => Request::ReadInstance {
                model: mem.as_ptr(),
                parameters: moc.parameter_count(),
                parts: moc.part_count(),
                drawables: moc.drawable_count(),
            },
        }
    }

    /// Takes the answer of the runtime to the request of this conversation,
    /// and says what follows from it: the next request, the model, or the
    /// error that ends the conversation.
    pub fn advance(self, reply: Reply) -> (r: Result<Progress, CubismError>)
        ensures
            advanced(self@, reply, r),
            r matches Ok(Progress::Pending(next)) ==> next@.wf(),
    {
        proof {
            use_type_invariant(&self);
        }
        match self.phase {
            Phase::Reviving { staged } => match reply {
                Reply::Address(revived) => {
                    let moc = Moc::new(staged, revived)?;
                    Ok(pending(Phase::Sizing { definition: Definition::Fresh(moc) }))
                },
                _ => Err(unexpected()),
            },
            Phase::Sizing { definition } => match reply {
                Reply::Size(size) => {
                    let mem = definition.get().stage_model(size)?;
                    Ok(pending(Phase::Initializing { definition, mem, size }))
                },
                _ => Err(unexpected()),
            },
            Phase::Initializing { definition, mem, size } => match reply {
                Reply::Address(initialized) => {
                    let mem = definition.get().init_new_model(mem, initialized)?;
                    match definition {
                        Definition::Fresh(fresh) => Ok(pending(Phase::Identifying { fresh, mem })),
                        Definition::Shared(moc, inherited) => Ok(
                            pending(Phase::Reading { moc, inherited, mem }),
                        ),
                    }
                },
                _ => Err(unexpected()),
            },
            Phase::Identifying { fresh, mem } => match reply {
                Reply::Ids { parameters, parts, drawables } => {
                    let mut moc = fresh;
                    moc.init_ids(&parameters, &parts, &drawables)?;
                    Ok(pending(Phase::Reading { moc: Rc::new(moc), inherited: None, mem }))
                },
                _ => Err(unexpected()),
            },
            Phase::Reading { moc, inherited, mem } => match reply {
                Reply::Instance(data) => {
                    let mut model = Model::new_impl(moc, mem, data)?;
                    if let Some(inherited) = inherited {
                        model.inherit(inherited.parameter_values, inherited.part_opacities);
                    }
                    Ok(Progress::Ready(model))
                },
                _ => Err(unexpected()),
            },
        }
    }
}

/// The conversation that stands at `phase`, to be gone on with.
fn pending(phase: Phase) -> (r: Progress)
    requires
        (Loading { phase }).inv(),
    ensures
        r == Progress::Pending(Loading { phase }),
{
    Progress::Pending(Loading { phase })
}

/// The error for an answer that does not answer the request.
fn unexpected() -> (e: CubismError)
    ensures
        e matches CubismError::Other(message) && message@
            == "The answer does not fit the request"@,
{
    CubismError::Other("The answer does not fit the request".to_owned())
}

} // verus!
