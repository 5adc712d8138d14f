//! The model struct.
use crate::error::CubismError;
use crate::flags::{ConstantFlags, DynamicFlags};
use crate::mdl::drawables::{list_len, Drawables, DrawablesView};
use crate::mdl::loading::{Loading, LoadingView};
use crate::mdl::moc::{texts_of, Moc, MocView};
use crate::mem::AlignedMemory;
use crate::sys::{csmAlignofMoc, csmAlignofModel, csmModel};
use crate::text::str_eq;
use std::rc::Rc;
use vstd::prelude::*;

verus! {

/// Where a model stands between its construction and its updates.
#[derive(Clone, Copy, Debug, PartialEq, Eq, Structural)]
pub enum ModelState {
    /// The runtime has initialized the model and has not updated it yet. What
    /// an update computes, the dynamic flags first of all, is not yet
    /// meaningful.
    Constructed,
    /// The model has been updated at least once.
    Updated,
}

/// Size of the canvas, origin of the canvas and pixels per unit, each as the
/// bits of its value.
pub type CanvasInfo = ((u32, u32), (u32, u32), u32);

/// What the runtime reports of a model that it has just initialized.
#[derive(Debug)]
pub struct InstanceData {
    /// The bits of each parameter value.
    pub parameter_values: Vec<u32>,
    /// The bits of each part opacity.
    pub part_opacities: Vec<u32>,
    /// Size, origin and pixels per unit of the canvas.
    pub canvas: CanvasInfo,
    /// The drawables.
    pub drawables: Drawables,
}

/// One step of the update of a model. The runtime is taken through the
/// steps in their order; the drawables that the last one reports are what
/// [`Model::update`] takes.
#[derive(Debug)]
pub enum UpdateStep<'a> {
    /// Hand the runtime the parameter values and part opacities of the model
    /// at `model`.
    WriteValues { model: usize, parameter_values: &'a [u32], part_opacities: &'a [u32] },
    /// Update the model at `model` from the values that it was handed.
    UpdateModel { model: usize },
    /// Reset the dynamic flags of the drawables of the model at `model`.
    ResetDynamicFlags { model: usize },
    /// Report the `drawables` drawables of the model at `model`.
    ReadDrawables { model: usize, drawables: usize },
}

/// Whether `steps` are the steps of an update of `model`: the values of the
/// model are written, the model is updated, the dynamic flags are reset and
/// the drawables are read, in this order and all at the address of the
/// model.
pub open spec fn is_update_of(steps: Seq<UpdateStep<'_>>, model: ModelView) -> bool {
    &&& steps.len() == 4
    &&& steps[0] matches UpdateStep::WriteValues {
        model: address,
        parameter_values,
        part_opacities,
    }
    &&& address == model.address
    &&& parameter_values@ == model.parameter_values
    &&& part_opacities@ == model.part_opacities
    &&& steps[1] == (UpdateStep::UpdateModel { model: model.address })
    &&& steps[2] == (UpdateStep::ResetDynamicFlags { model: model.address })
    &&& steps[3] == (UpdateStep::ReadDrawables {
        model: model.address,
        drawables: model.drawables.count() as usize,
    })
}

/// A model as its users see it.
pub struct ModelView {
    /// The address of the arena that holds the initialized model.
    pub address: usize,
    /// The moc that the model was built from, and shares with its clones.
    pub moc: MocView,
    /// The bits of each parameter value.
    pub parameter_values: Seq<u32>,
    /// The bits of each part opacity.
    pub part_opacities: Seq<u32>,
    /// Size, origin and pixels per unit of the canvas.
    pub canvas: CanvasInfo,
    /// The drawables, as the last update left them.
    pub drawables: DrawablesView,
    /// Whether the model has been updated.
    pub state: ModelState,
}

impl ModelView {
    /// The arena is aligned for a model, the moc is complete, and the model
    /// has one value for each parameter of the moc, one opacity for each part
    /// and one drawable for each drawable id.
    pub open spec fn wf(self) -> bool {
        &&& self.address % csmAlignofModel == 0
        &&& self.moc.wf()
        &&& self.moc.populated
        &&& self.parameter_values.len() == self.moc.parameter_ids.len()
        &&& self.part_opacities.len() == self.moc.part_ids.len()
        &&& self.drawables.count() == self.moc.drawable_ids.len()
        &&& self.drawables.wf()
    }
}

/// Whether what the runtime reports of a new model fits the moc that the
/// model was built from.
pub open spec fn fits(moc: MocView, data: InstanceData) -> bool {
    &&& moc.populated
    &&& data.parameter_values@.len() == moc.parameter_ids.len()
    &&& data.part_opacities@.len() == moc.part_ids.len()
    &&& data.drawables@.count() == moc.drawable_ids.len()
    &&& data.drawables@.wf()
}

/// Whether `i` is the first place of `ids` that holds `name`.
pub open spec fn is_first_index_of(ids: Seq<Seq<char>>, name: Seq<char>, i: int) -> bool {
    &&& 0 <= i < ids.len()
    &&& ids[i] == name
    &&& forall|j: int| 0 <= j < i ==> ids[j] != name
}

/// Whether no place of `ids` holds `name`.
pub open spec fn is_absent_from(ids: Seq<Seq<char>>, name: Seq<char>) -> bool {
    forall|j: int| 0 <= j < ids.len() ==> ids[j] != name
}

/// A new handle on a shared moc, as `Rc::clone` gives it: it points to the
/// same moc as the handle it was cloned from.
#[verifier::external_body]
fn share(moc: &Rc<Moc>) -> (r: Rc<Moc>)
    ensures
        r == *moc,
{
    Rc::clone(moc)
}

/// The place of the first of `ids` that is `name`, if there is one.
fn position(ids: &[String], name: &str) -> (r: Option<usize>)
    ensures
        match r {
            Some(i) => is_first_index_of(texts_of(ids@), name@, i as int),
            None => is_absent_from(texts_of(ids@), name@),
        },
{
    let mut i: usize = 0;
    while i < ids.len()
        invariant
            i <= ids@.len(),
            forall|j: int| 0 <= j < i ==> texts_of(ids@)[j] != name@,
        decreases ids@.len() - i,
    {
        if str_eq(ids[i].as_str(), name) {
            return Some(i);
        }
        i += 1;
    }
    None
}

/// This represents a model.
///
/// A model shares its underlying moc with the models that have been cloned
/// from it, and has control over its own parameters and part opacities.
///
/// Slices returned by functions have to be indexed by the drawable, parameter
/// or part index for the individual value. If a function takes an index
/// argument, the returned slice holds the values of that one drawable.
#[derive(Debug)]
pub struct Model {
    mem: AlignedMemory<csmModel>,
    moc: Rc<Moc>,
    param_values: Vec<u32>,
    part_opacities: Vec<u32>,
    drawable_count: usize,
    drawables: Drawables,
    canvas: CanvasInfo,
    state: ModelState,
}

impl View for Model {
    type V = ModelView;

    closed spec fn view(&self) -> ModelView {
        ModelView {
            address: self.mem@.address,
            moc: self.moc@,
            parameter_values: self.param_values@,
            part_opacities: self.part_opacities@,
            canvas: self.canvas,
            drawables: self.drawables@,
            state: self.state,
        }
    }
}

impl Model {
    /// What holds of every model that this library builds: its view is well
    /// formed, and the number of drawables that it keeps is the number of
    /// drawables that it has.
    ///
    /// A model keeps this as long as the slices that it hands out for writing
    /// are written in place.
    pub closed spec fn wf(&self) -> bool {
        &&& self@.wf()
        &&& self.drawable_count == self.drawables@.count()
    }

    /// The view of a well-formed model is well formed.
    pub proof fn lemma_view_wf(&self)
        requires
            self.wf(),
        ensures
            self@.wf(),
    {
    }

    /// Returns the parameter index of `name` or `None` if the parameter name
    /// does not exist in this model. Of several parameters with that name, it
    /// is the first.
    pub fn parameter_index(&self, name: &str) -> (r: Option<usize>)
        ensures
            match r {
                Some(i) => is_first_index_of(self@.moc.parameter_ids, name@, i as int),
                None => is_absent_from(self@.moc.parameter_ids, name@),
            },
    {
        position(self.moc.parameter_ids(), name)
    }

    /// Returns the part index of `name` or `None` if the part name does not
    /// exist in this model. Of several parts with that name, it is the first.
    pub fn part_index(&self, name: &str) -> (r: Option<usize>)
        ensures
            match r {
                Some(i) => is_first_index_of(self@.moc.part_ids, name@, i as int),
                None => is_absent_from(self@.moc.part_ids, name@),
            },
    {
        position(self.moc.part_ids(), name)
    }

    /// Returns the bits of the parameter values.
    pub fn parameter_values(&self) -> (r: &[u32])
        ensures
            r@ == self@.parameter_values,
    {
        self.param_values.as_slice()
    }

    /// Returns the bits of the parameter values, for writing. What is written
    /// becomes the values of this model, and of no other.
    pub fn parameter_values_mut(&mut self) -> (r: &mut [u32])
        ensures
            r@ == old(self)@.parameter_values,
            final(self)@ == (ModelView { parameter_values: final(r)@, ..old(self)@ }),
            old(self).wf() && final(r)@.len() == r@.len() ==> final(self).wf(),
    {
        self.param_values.as_mut_slice()
    }

    /// Sets the parameter value at index `idx` to the bits `val`. The value is
    /// taken as it is, whatever the bounds of the parameter are.
    pub fn set_parameter_value(&mut self, idx: usize, val: u32)
        requires
            idx < old(self)@.parameter_values.len(),
        ensures
            final(self)@ == (ModelView {
                parameter_values: old(self)@.parameter_values.update(idx as int, val),
                ..old(self)@
            }),
            old(self).wf() ==> final(self).wf(),
    {
        self.param_values[idx] = val;
    }

    /// Returns the bits of the part opacities.
    pub fn part_opacities(&self) -> (r: &[u32])
        ensures
            r@ == self@.part_opacities,
    {
        self.part_opacities.as_slice()
    }

    /// Returns the bits of the part opacities, for writing. What is written
    /// becomes the opacities of this model, and of no other.
    pub fn part_opacities_mut(&mut self) -> (r: &mut [u32])
        ensures
            r@ == old(self)@.part_opacities,
            final(self)@ == (ModelView { part_opacities: final(r)@, ..old(self)@ }),
            old(self).wf() && final(r)@.len() == r@.len() ==> final(self).wf(),
    {
        self.part_opacities.as_mut_slice()
    }

    /// Sets the part opacity at index `idx` to the bits `val`.
    pub fn set_part_opacity(&mut self, idx: usize, val: u32)
        requires
            idx < old(self)@.part_opacities.len(),
        ensures
            final(self)@ == (ModelView {
                part_opacities: old(self)@.part_opacities.update(idx as int, val),
                ..old(self)@
            }),
            old(self).wf() ==> final(self).wf(),
    {
        self.part_opacities[idx] = val;
    }

    /// The steps through which the runtime is taken for an update of this
    /// model, in their order.
    pub fn update_steps(&self) -> (r: Vec<UpdateStep<'_>>)
        requires
            self.wf(),
        ensures
            is_update_of(r@, self@),
            self@.address % csmAlignofModel == 0,
    {
        let model = self.mem.as_ptr();
        let mut steps: Vec<UpdateStep<'_>> = Vec::with_capacity(4);
        steps.push(
            UpdateStep::WriteValues {
                model,
                parameter_values: self.param_values.as_slice(),
                part_opacities: self.part_opacities.as_slice(),
            },
        );
        steps.push(UpdateStep::UpdateModel { model });
        steps.push(UpdateStep::ResetDynamicFlags { model });
        steps.push(UpdateStep::ReadDrawables { model, drawables: self.drawable_count });
        steps
    }

    /// Takes over what the runtime reports of the drawables at the end of an
    /// update of this model: see [`Model::update_steps`].
    ///
    /// The drawables have to fit together and to be as many as before; else
    /// the model stays as it was.
    pub fn update(&mut self, drawables: Drawables) -> (r: Result<(), CubismError>)
        ensures
            match r {
                Ok(_) => {
                    &&& drawables@.wf()
                    &&& drawables@.count() == old(self)@.drawables.count()
                    &&& final(self)@ == (ModelView {
                        drawables: drawables@,
                        state: ModelState::Updated,
                        ..old(self)@
                    })
                },
                Err(e) => {
                    &&& !(drawables@.wf() && drawables@.count() == old(self)@.drawables.count())
                    &&& e is Other
                    &&& *final(self) == *old(self)
                },
            },
            old(self).wf() ==> final(self).wf(),
    {
        if drawables.count() != self.drawables.count() || !drawables.is_valid() {
            return Err(CubismError::Other("The drawables do not fit the model".to_owned()));
        }
        self.drawables = drawables;
        self.state = ModelState::Updated;
        Ok(())
    }

    /// Whether the model has been updated since it was built.
    pub fn state(&self) -> (r: ModelState)
        ensures
            r == self@.state,
    {
        self.state
    }

    /// Returns information about this model's size, origin and
    /// pixels-per-unit.
    pub fn canvas_info(&self) -> (r: CanvasInfo)
        ensures
            r == self@.canvas,
    {
        self.canvas
    }

    /// Returns the number of drawables of this model.
    pub fn drawable_count(&self) -> (r: usize)
        requires
            self.wf(),
        ensures
            r == self@.drawables.count(),
            r == self@.moc.drawable_ids.len(),
    {
        self.drawable_count
    }

    /// Returns the render orders of the drawables.
    pub fn drawable_render_orders(&self) -> (r: &[i32])
        ensures
            r@ == self@.drawables.render_orders,
    {
        self.drawables.render_orders.as_slice()
    }

    /// Returns the draw orders of the drawables.
    pub fn drawable_draw_orders(&self) -> (r: &[i32])
        ensures
            r@ == self@.drawables.draw_orders,
    {
        self.drawables.draw_orders.as_slice()
    }

    /// Returns the texture indices of the drawables.
    pub fn drawable_texture_indices(&self) -> (r: &[i32])
        ensures
            r@ == self@.drawables.texture_indices,
    {
        self.drawables.texture_indices.as_slice()
    }

    /// Returns the number of indices for every drawable.
    pub fn drawable_index_counts(&self) -> (r: &[i32])
        ensures
            r@ == self@.drawables.index_counts,
    {
        self.drawables.index_counts.as_slice()
    }

    /// Returns the indices of the drawable at the specified index.
    pub fn drawable_indices(&self, idx: usize) -> (r: &[u16])
        requires
            self.wf(),
            idx < self@.drawables.count(),
        ensures
            r@ == self@.drawables.indices[idx as int],
            r@.len() == list_len(self@.drawables.index_counts[idx as int]),
    {
        self.drawables.indices[idx].as_slice()
    }

    /// Returns the number of vertices of every drawable.
    pub fn drawable_vertex_counts(&self) -> (r: &[i32])
        ensures
            r@ == self@.drawables.vertex_counts,
    {
        self.drawables.vertex_counts.as_slice()
    }

    /// Returns the bits of the vertex positions of the drawable at the
    /// specified index.
    pub fn drawable_vertex_positions(&self, idx: usize) -> (r: &[(u32, u32)])
        requires
            self.wf(),
            idx < self@.drawables.count(),
        ensures
            r@ == self@.drawables.vertex_positions[idx as int],
            r@.len() == list_len(self@.drawables.vertex_counts[idx as int]),
    {
        self.drawables.vertex_positions[idx].as_slice()
    }

    /// Returns the bits of the uv coordinates of the drawable at the specified
    /// index.
    pub fn drawable_vertex_uvs(&self, idx: usize) -> (r: &[(u32, u32)])
        requires
            self.wf(),
            idx < self@.drawables.count(),
        ensures
            r@ == self@.drawables.vertex_uvs[idx as int],
            r@.len() == list_len(self@.drawables.vertex_counts[idx as int]),
    {
        self.drawables.vertex_uvs[idx].as_slice()
    }

    /// Returns the bits of the drawable opacities.
    pub fn drawable_opacities(&self) -> (r: &[u32])
        ensures
            r@ == self@.drawables.opacities,
    {
        self.drawables.opacities.as_slice()
    }

    /// Returns the number of masks of every drawable.
    pub fn drawable_mask_counts(&self) -> (r: &[i32])
        ensures
            r@ == self@.drawables.mask_counts,
    {
        self.drawables.mask_counts.as_slice()
    }

    /// Returns the masks of the drawable at the specified index.
    pub fn drawable_masks(&self, idx: usize) -> (r: &[i32])
        requires
            self.wf(),
            idx < self@.drawables.count(),
        ensures
            r@ == self@.drawables.masks[idx as int],
            r@.len() == list_len(self@.drawables.mask_counts[idx as int]),
    {
        self.drawables.masks[idx].as_slice()
    }

    /// Returns true if this model is masked: if one of its drawables reports
    /// a mask count that is not positive.
    pub fn is_masked(&self) -> (r: bool)
        requires
            self.wf(),
        ensures
            r == self@.drawables.is_masked(),
    {
        let maskcounts = self.drawable_mask_counts();
        let mut i: usize = 0;
        while i < self.drawable_count
            invariant
                self.wf(),
                i <= self.drawable_count,
                maskcounts@ == self@.drawables.mask_counts,
                forall|j: int| 0 <= j < i ==> maskcounts@[j] > 0,
            decreases self.drawable_count - i,
        {
            if maskcounts[i] <= 0 {
                return true;
            }
            i += 1;
        }
        false
    }

    /// Returns the constant flags of the drawables.
    pub fn drawable_constant_flags(&self) -> (r: &[ConstantFlags])
        ensures
            r@ == self@.drawables.constant_flags,
    {
        self.drawables.constant_flags.as_slice()
    }

    /// Returns the dynamic flags of the drawables.
    pub fn drawable_dynamic_flags(&self) -> (r: &[DynamicFlags])
        ensures
            r@ == self@.drawables.dynamic_flags,
    {
        self.drawables.dynamic_flags.as_slice()
    }

    /// Returns a reference to the underlying moc.
    pub fn moc(&self) -> (r: &Moc)
        ensures
            r@ == self@.moc,
    {
        &self.moc
    }

    /// Returns the address of the initialized model, for reading.
    pub fn as_ptr(&self) -> (r: usize)
        ensures
            r == self@.address,
            r % csmAlignofModel == 0,
    {
        self.mem.as_ptr()
    }

    /// Returns the address of the initialized model, for writing.
    pub fn as_mut_ptr(&mut self) -> (r: usize)
        ensures
            r == old(self)@.address,
            r % csmAlignofModel == 0,
            *final(self) == *old(self),
    {
        self.mem.as_ptr()
    }

    /// Builds a model of `moc` in the arena `mem`, in which the runtime has
    /// initialized it, from what the runtime reports of it.
    ///
    /// The data have to fit the moc, which has to be populated; else the call
    /// fails.
    pub fn new_impl(moc: Rc<Moc>, mem: AlignedMemory<csmModel>, data: InstanceData) -> (r: Result<
        Self,
        CubismError,
    >)
        ensures
            match r {
                Ok(model) => {
                    &&& fits(moc@, data)
                    &&& model.wf()
                    &&& model@ == (ModelView {
                        address: mem@.address,
                        moc: moc@,
                        parameter_values: data.parameter_values@,
                        part_opacities: data.part_opacities@,
                        canvas: data.canvas,
                        drawables: data.drawables@,
                        state: ModelState::Constructed,
                    })
                },
                Err(e) => !fits(moc@, data) && e is Other,
            },
    {
        if !moc.is_populated() || data.parameter_values.len() != moc.parameter_count()
            || data.part_opacities.len() != moc.part_count() || data.drawables.count()
            != moc.drawable_count() || !data.drawables.is_valid() {
            return Err(CubismError::Other("The data do not fit the moc".to_owned()));
        }
        mem.well_formed();
        moc.well_formed();
        let drawable_count = data.drawables.count();
        Ok(
            Model {
                mem,
                moc,
                param_values: data.parameter_values,
                part_opacities: data.part_opacities,
                drawable_count,
                drawables: data.drawables,
                canvas: data.canvas,
                state: ModelState::Constructed,
            },
        )
    }

    /// Starts to load a model from the bytes of a compiled moc: stages the
    /// bytes for the runtime and returns the conversation with the runtime
    /// that ends with the model.
    pub fn from_bytes(data: &[u8]) -> (r: Result<Loading, CubismError>)
        ensures
            match r {
                Ok(loading) => {
                    &&& loading@.wf()
                    &&& loading@ matches LoadingView::Reviving { address, staged }
                    &&& staged == data@
                },
                Err(e) => e is AllocationFailure,
            },
            data@.len() + csmAlignofMoc - 1 > usize::MAX ==> r is Err,
    {
        match Moc::stage(data) {
            Ok(mem) => Ok(Loading::revive(mem)),
            Err(e) => Err(e),
        }
    }

    /// Starts to build another model of a moc that is complete: returns the
    /// conversation with the runtime that ends with the model. The moc is
    /// shared, not revived again; a moc whose ids are not filled in is
    /// refused.
    pub fn from_existing_definition(moc: Rc<Moc>) -> (r: Result<Loading, CubismError>)
        ensures
            match r {
                Ok(loading) => {
                    &&& moc@.populated
                    &&& loading@.wf()
                    &&& loading@ == (LoadingView::Sizing { moc: moc@, inherited: None })
                },
                Err(e) => !moc@.populated && e is Other,
            },
    {
        moc.well_formed();
        if moc.is_populated() {
            Ok(Loading::another_of(moc))
        } else {
            Err(CubismError::Other("The moc has no ids yet".to_owned()))
        }
    }

    /// Returns a new handle on the moc that this model shares.
    pub fn shared_moc(&self) -> (r: Rc<Moc>)
        ensures
            r@ == self@.moc,
    {
        share(&self.moc)
    }

    /// Starts to create a clone of this model: returns the conversation with
    /// the runtime that ends with the clone.
    ///
    /// The clone shares the moc of this model, and has the parameter values
    /// and part opacities that this model has now. The conversation can
    /// fail, which is the reason why `Clone` is not implemented; this model
    /// is left as it is either way.
    pub fn try_clone_from(&self) -> (r: Loading)
        requires
            self.wf(),
        ensures
            r@.wf(),
            r@ == (LoadingView::Sizing {
                moc: self@.moc,
                inherited: Some((self@.parameter_values, self@.part_opacities)),
            }),
    {
        Loading::clone_of(share(&self.moc), self.param_values.clone(), self.part_opacities.clone())
    }

    /// Replaces the parameter values and the part opacities of this model by
    /// others of the same number.
    pub(crate) fn inherit(&mut self, parameter_values: Vec<u32>, part_opacities: Vec<u32>)
        requires
            old(self).wf(),
            parameter_values@.len() == old(self)@.parameter_values.len(),
            part_opacities@.len() == old(self)@.part_opacities.len(),
        ensures
            final(self).wf(),
            final(self)@ == (ModelView {
                parameter_values: parameter_values@,
                part_opacities: part_opacities@,
                ..old(self)@
            }),
    {
        self.param_values = parameter_values;
        self.part_opacities = part_opacities;
    }
}

impl core::ops::Deref for Model {
    type Target = Moc;

    /// A model reads as its moc.
    fn deref(&self) -> (r: &Moc)
        ensures
            r@ == self@.moc,
    {
        &self.moc
    }
}

/// Writes to the parameter values and part opacities of a model, which
/// leave their number as it is, change nothing else of the model: not its
/// drawables, which only an update changes, and not the moc that it shares
/// with other models. So another model of the same moc sees that moc as
/// before, and both still have a value for each of its parameters and an
/// opacity for each of its parts.
pub proof fn lemma_writes_stay_in_the_model(
    model: Model,
    written: Model,
    other: Model,
    parameter_values: Seq<u32>,
    part_opacities: Seq<u32>,
)
    requires
        model.wf(),
        other.wf(),
        other@.moc == model@.moc,
        parameter_values.len() == model@.parameter_values.len(),
        part_opacities.len() == model@.part_opacities.len(),
        written@ == (ModelView { parameter_values, part_opacities, ..model@ }),
    ensures
        written@.wf(),
        written@.moc == other@.moc,
        written@.drawables == model@.drawables,
        written@.state == model@.state,
        written@.parameter_values.len() == other@.parameter_values.len(),
        written@.part_opacities.len() == other@.part_opacities.len(),
{
}

/// A clone starts with the parameter values and part opacities of the model
/// that it was cloned from, and a later write to the clone is a write to the
/// clone alone: at every other index the clone still has the value that the
/// source had, and has, when it was cloned.
pub proof fn lemma_clone_then_write(
    source: Model,
    clone: Model,
    written: Model,
    idx: int,
    val: u32,
)
    requires
        source.wf(),
        clone@.moc == source@.moc,
        clone@.parameter_values == source@.parameter_values,
        clone@.part_opacities == source@.part_opacities,
        0 <= idx < clone@.parameter_values.len(),
        written@ == (ModelView {
            parameter_values: clone@.parameter_values.update(idx, val),
            ..clone@
        }),
    ensures
        written@.parameter_values[idx] == val,
        forall|j: int|
            0 <= j < source@.parameter_values.len() && j != idx
                ==> written@.parameter_values[j] == source@.parameter_values[j],
        written@.part_opacities == source@.part_opacities,
        written@.moc == source@.moc,
{
}

/// Where no two ids are the same, the index of a name is the one place that
/// holds it, and a name has no index exactly if no place holds it.
pub proof fn lemma_index_correspondence(ids: Seq<Seq<char>>, name: Seq<char>, i: int)
    requires
        ids.no_duplicates(),
    ensures
        is_first_index_of(ids, name, i) <==> (0 <= i < ids.len() && ids[i] == name),
        is_absent_from(ids, name) <==> !ids.contains(name),
{
}

/// The first index of a name holds that name, and `None` is returned for no
/// name that some place holds.
pub proof fn lemma_first_index(ids: Seq<Seq<char>>, name: Seq<char>, i: int)
    ensures
        is_first_index_of(ids, name, i) ==> ids[i] == name && !is_absent_from(ids, name),
        is_absent_from(ids, name) <==> !ids.contains(name),
        !is_absent_from(ids, name) ==> exists|k: int| is_first_index_of(ids, name, k),
{
    if !is_absent_from(ids, name) {
        lemma_first_exists(ids, name, ids.len() as int);
    }
}

/// Among the first `n` places, one that holds `name` is the first to do so.
proof fn lemma_first_exists(ids: Seq<Seq<char>>, name: Seq<char>, n: int)
    requires
        0 <= n <= ids.len(),
    ensures
        (forall|j: int| 0 <= j < n ==> ids[j] != name) || exists|k: int|
            k < n && is_first_index_of(ids, name, k),
    decreases n,
{
    if n > 0 {
        lemma_first_exists(ids, name, n - 1);
        if forall|j: int| 0 <= j < n - 1 ==> ids[j] != name {
            if ids[n - 1] == name {
                assert(is_first_index_of(ids, name, n - 1));
            }
        } else {
            let k = choose|k: int| k < n - 1 && is_first_index_of(ids, name, k);
            assert(k < n && is_first_index_of(ids, name, k));
        }
    }
}

} // verus!
