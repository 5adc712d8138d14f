//! The drawables of a model, as the runtime reports them after an update.
use crate::flags::{ConstantFlags, DynamicFlags};
use vstd::prelude::*;

verus! {

/// The number of entries in the list of a drawable for which the runtime
/// reports `count` entries: `count` itself, or none where it is not positive.
pub open spec fn spec_list_len(count: i32) -> usize {
    if count > 0 {
        count as usize
    } else {
        0
    }
}

/// The number of entries in the list of a drawable for which the runtime
/// reports `count` entries: `count` itself, or none where it is not positive.
#[verifier::when_used_as_spec(spec_list_len)]
pub fn list_len(count: i32) -> (r: usize)
    ensures
        r == spec_list_len(count),
{
    if count > 0 {
        count as usize
    } else {
        0
    }
}

/// Whether every render order of `orders` is a place in the draw sequence:
/// not negative and below the number of drawables.
pub open spec fn orders_in_range(orders: Seq<i32>) -> bool {
    forall|i: int| 0 <= i < orders.len() ==> 0 <= #[trigger] orders[i] < orders.len()
}

/// Whether `i` is the last drawable with the render order `k`.
pub open spec fn is_last_with_order(orders: Seq<i32>, k: int, i: int) -> bool {
    &&& 0 <= i < orders.len()
    &&& orders[i] == k
    &&& forall|j: int| i < j < orders.len() ==> orders[j] != k
}

/// Whether `sequence` is the draw sequence of drawables with the render
/// orders `orders`: at the place of a render order stands the drawable that
/// has it, the last one if several have it, and drawable 0 where none has it.
pub open spec fn is_draw_sequence(orders: Seq<i32>, sequence: Seq<usize>) -> bool {
    &&& sequence.len() == orders.len()
    &&& forall|k: int|
        0 <= k < sequence.len() ==> {
            ||| is_last_with_order(orders, k, #[trigger] sequence[k] as int)
            ||| sequence[k] == 0 && forall|j: int| 0 <= j < orders.len() ==> orders[j] != k
        }
}

/// Where every drawable has a render order of its own, the draw sequence
/// turns the render orders round: the drawable at the place of a render
/// order has that order, and each drawable stands at the place of its order.
pub proof fn lemma_draw_sequence_inverts(orders: Seq<i32>, sequence: Seq<usize>)
    requires
        orders_in_range(orders),
        orders.no_duplicates(),
        is_draw_sequence(orders, sequence),
    ensures
        forall|i: int| 0 <= i < orders.len() ==> sequence[#[trigger] orders[i] as int] == i,
{
    assert forall|i: int| 0 <= i < orders.len() implies sequence[#[trigger] orders[i] as int]
        == i by {
        let k = orders[i] as int;
        assert(0 <= k < sequence.len());
        let s = sequence[k] as int;
        if is_last_with_order(orders, k, s) {
            assert(orders[s] == orders[i]);
        }
    }
}

/// Returns the sequence in which drawables with the given render orders are
/// drawn: for each place, the drawable that is drawn there. There is none if
/// a render order is negative or not below the number of drawables.
pub fn draw_sequence(render_orders: &[i32]) -> (r: Option<Vec<usize>>)
    ensures
        match r {
            Some(sequence) => orders_in_range(render_orders@) && is_draw_sequence(
                render_orders@,
                sequence@,
            ),
            None => !orders_in_range(render_orders@),
        },
{
    let n = render_orders.len();
    let mut sequence: Vec<usize> = Vec::with_capacity(n);
    let mut k: usize = 0;
    while k < n
        invariant
            k <= n,
            sequence@.len() == k,
            forall|j: int| 0 <= j < k ==> sequence@[j] == 0,
        decreases n - k,
    {
        sequence.push(0);
        k += 1;
    }
    let mut i: usize = 0;
    while i < n
        invariant
            i <= n,
            n == render_orders@.len(),
            sequence@.len() == n,
            forall|j: int| 0 <= j < i ==> 0 <= #[trigger] render_orders@[j] < n,
            forall|k: int|
                0 <= k < n ==> {
                    ||| {
                        &&& 0 <= (#[trigger] sequence@[k]) < i
                        &&& render_orders@[sequence@[k] as int] == k
                        &&& forall|j: int| sequence@[k] < j < i ==> render_orders@[j] != k
                    }
                    ||| sequence@[k] == 0 && forall|j: int| 0 <= j < i ==> render_orders@[j] != k
                },
        decreases n - i,
    {
        let order = render_orders[i];
        if order < 0 || order as usize >= n {
            return None;
        }
        sequence[order as usize] = i;
        i += 1;
    }
    Some(sequence)
}

/// What the runtime reports of the drawables of a model. Every array has one
/// entry for each drawable, in the runtime's order.
#[derive(Debug)]
pub struct Drawables {
    /// The render order of each drawable.
    pub render_orders: Vec<i32>,
    /// The draw order of each drawable.
    pub draw_orders: Vec<i32>,
    /// The texture index of each drawable.
    pub texture_indices: Vec<i32>,
    /// The bits of the opacity of each drawable.
    pub opacities: Vec<u32>,
    /// The constant flags of each drawable.
    pub constant_flags: Vec<ConstantFlags>,
    /// The dynamic flags of each drawable.
    pub dynamic_flags: Vec<DynamicFlags>,
    /// The number of triangle indices of each drawable.
    pub index_counts: Vec<i32>,
    /// The triangle indices of each drawable.
    pub indices: Vec<Vec<u16>>,
    /// The number of vertices of each drawable.
    pub vertex_counts: Vec<i32>,
    /// The bits of the position of each vertex of each drawable.
    pub vertex_positions: Vec<Vec<(u32, u32)>>,
    /// The bits of the texture coordinates of each vertex of each drawable.
    pub vertex_uvs: Vec<Vec<(u32, u32)>>,
    /// The number of masks of each drawable.
    pub mask_counts: Vec<i32>,
    /// The drawables that mask each drawable.
    pub masks: Vec<Vec<i32>>,
}

/// The drawables of a model as their users see them.
pub struct DrawablesView {
    /// The render order of each drawable.
    pub render_orders: Seq<i32>,
    /// The draw order of each drawable.
    pub draw_orders: Seq<i32>,
    /// The texture index of each drawable.
    pub texture_indices: Seq<i32>,
    /// The bits of the opacity of each drawable.
    pub opacities: Seq<u32>,
    /// The constant flags of each drawable.
    pub constant_flags: Seq<ConstantFlags>,
    /// The dynamic flags of each drawable.
    pub dynamic_flags: Seq<DynamicFlags>,
    /// The number of triangle indices of each drawable.
    pub index_counts: Seq<i32>,
    /// The triangle indices of each drawable.
    pub indices: Seq<Seq<u16>>,
    /// The number of vertices of each drawable.
    pub vertex_counts: Seq<i32>,
    /// The bits of the position of each vertex of each drawable.
    pub vertex_positions: Seq<Seq<(u32, u32)>>,
    /// The bits of the texture coordinates of each vertex of each drawable.
    pub vertex_uvs: Seq<Seq<(u32, u32)>>,
    /// The number of masks of each drawable.
    pub mask_counts: Seq<i32>,
    /// The drawables that mask each drawable.
    pub masks: Seq<Seq<i32>>,
}

impl DrawablesView {
    /// The number of drawables.
    pub open spec fn count(self) -> nat {
        self.render_orders.len()
    }

    /// Every array has one entry for each drawable, and the lists of a
    /// drawable have as many entries as the runtime counts for them.
    pub open spec fn wf(self) -> bool {
        &&& self.draw_orders.len() == self.count()
        &&& self.texture_indices.len() == self.count()
        &&& self.opacities.len() == self.count()
        &&& self.constant_flags.len() == self.count()
        &&& self.dynamic_flags.len() == self.count()
        &&& self.index_counts.len() == self.count()
        &&& self.indices.len() == self.count()
        &&& self.vertex_counts.len() == self.count()
        &&& self.vertex_positions.len() == self.count()
        &&& self.vertex_uvs.len() == self.count()
        &&& self.mask_counts.len() == self.count()
        &&& self.masks.len() == self.count()
        &&& forall|i: int|
            0 <= i < self.count() ==> (#[trigger] self.indices[i]).len() == list_len(
                self.index_counts[i],
            )
        &&& forall|i: int|
            0 <= i < self.count() ==> (#[trigger] self.vertex_positions[i]).len() == list_len(
                self.vertex_counts[i],
            )
        &&& forall|i: int|
            0 <= i < self.count() ==> (#[trigger] self.vertex_uvs[i]).len() == list_len(
                self.vertex_counts[i],
            )
        &&& forall|i: int|
            0 <= i < self.count() ==> (#[trigger] self.masks[i]).len() == list_len(
                self.mask_counts[i],
            )
    }

    /// Whether some drawable reports a mask count that is not positive.
    pub open spec fn is_masked(self) -> bool {
        exists|i: int| 0 <= i < self.mask_counts.len() && #[trigger] self.mask_counts[i] <= 0
    }
}

/// A model is masked exactly if not every drawable reports a positive mask
/// count.
pub proof fn lemma_is_masked(drawables: DrawablesView)
    ensures
        (forall|i: int|
            0 <= i < drawables.mask_counts.len() ==> drawables.mask_counts[i] > 0)
            ==> !drawables.is_masked(),
        (exists|i: int| 0 <= i < drawables.mask_counts.len() && drawables.mask_counts[i] <= 0)
            ==> drawables.is_masked(),
{
}

impl View for Drawables {
    type V = DrawablesView;

    open spec fn view(&self) -> DrawablesView {
        DrawablesView {
            render_orders: self.render_orders@,
            draw_orders: self.draw_orders@,
            texture_indices: self.texture_indices@,
            opacities: self.opacities@,
            constant_flags: self.constant_flags@,
            dynamic_flags: self.dynamic_flags@,
            index_counts: self.index_counts@,
            indices: Seq::new(self.indices@.len(), |i: int| self.indices@[i]@),
            vertex_counts: self.vertex_counts@,
            vertex_positions: Seq::new(
                self.vertex_positions@.len(),
                |i: int| self.vertex_positions@[i]@,
            ),
            vertex_uvs: Seq::new(self.vertex_uvs@.len(), |i: int| self.vertex_uvs@[i]@),
            mask_counts: self.mask_counts@,
            masks: Seq::new(self.masks@.len(), |i: int| self.masks@[i]@),
        }
    }
}

impl Drawables {
    /// The number of drawables.
    pub fn count(&self) -> (r: usize)
        ensures
            r == self@.count(),
    {
        self.render_orders.len()
    }

    /// Whether the arrays fit together: see [`DrawablesView::wf`].
    pub fn is_valid(&self) -> (r: bool)
        ensures
            r == self@.wf(),
    {
        let n = self.render_orders.len();
        if self.draw_orders.len() != n || self.texture_indices.len() != n || self.opacities.len()
            != n || self.constant_flags.len() != n || self.dynamic_flags.len() != n
            || self.index_counts.len() != n || self.indices.len() != n || self.vertex_counts.len()
            != n || self.vertex_positions.len() != n || self.vertex_uvs.len() != n
            || self.mask_counts.len() != n || self.masks.len() != n {
            return false;
        }
        let mut i: usize = 0;
        while i < n
            invariant
                i <= n,
                n == self@.count(),
                self.draw_orders@.len() == n,
                self.texture_indices@.len() == n,
                self.opacities@.len() == n,
                self.constant_flags@.len() == n,
                self.dynamic_flags@.len() == n,
                self.index_counts@.len() == n,
                self.indices@.len() == n,
                self.vertex_counts@.len() == n,
                self.vertex_positions@.len() == n,
                self.vertex_uvs@.len() == n,
                self.mask_counts@.len() == n,
                self.masks@.len() == n,
                forall|j: int|
                    0 <= j < i ==> (#[trigger] self@.indices[j]).len() == list_len(
                        self@.index_counts[j],
                    ),
                forall|j: int|
                    0 <= j < i ==> (#[trigger] self@.vertex_positions[j]).len() == list_len(
                        self@.vertex_counts[j],
                    ),
                forall|j: int|
                    0 <= j < i ==> (#[trigger] self@.vertex_uvs[j]).len() == list_len(
                        self@.vertex_counts[j],
                    ),
                forall|j: int|
                    0 <= j < i ==> (#[trigger] self@.masks[j]).len() == list_len(
                        self@.mask_counts[j],
                    ),
            decreases n - i,
        {
            let vertices = list_len(self.vertex_counts[i]);
            if self.indices[i].len() != list_len(self.index_counts[i])
                || self.vertex_positions[i].len() != vertices || self.vertex_uvs[i].len()
                != vertices || self.masks[i].len() != list_len(self.mask_counts[i]) {
                assert(self@.indices[i as int] == self.indices@[i as int]@);
                assert(self@.vertex_positions[i as int] == self.vertex_positions@[i as int]@);
                assert(self@.vertex_uvs[i as int] == self.vertex_uvs@[i as int]@);
                assert(self@.masks[i as int] == self.masks@[i as int]@);
                return false;
            }
            i += 1;
        }
        true
    }
}

} // verus!
