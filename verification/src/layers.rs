//! Layers of points: each layer has its own editor text and history; one layer is
//! selected, and layers are created, duplicated, shown and deleted here.

use vstd::prelude::*;
use crate::history::{HistoryView, PointsHistory};
use crate::text::{decimal_text, push_decimal, spec_trim, str_to_chars, trim_chars, push_chars};

verus! {

/// The number of colors layers cycle through.
pub const LAYER_COLOR_PALETTE_LEN: usize = 8;

/// The stable identifier of a layer.
#[derive(Debug, Clone, Copy, PartialEq, Eq, Hash, Structural)]
pub struct PointLayerId(pub u64);

impl PointLayerId {
    /// The identifier of the first layer.
    pub fn first() -> (id: PointLayerId)
        ensures
            id.0 == 1,
    {
        PointLayerId(1)
    }
}

/// One layer of points.
#[derive(Debug)]
pub struct PointLayer {
    pub id: PointLayerId,
    pub name: String,
    pub visible: bool,
    /// Position of the layer's color in the palette.
    pub color_index: usize,
    pub points: PointsHistory,
}

/// The name given to the `n`-th created layer: `Layer n`.
pub open spec fn spec_layer_name(n: nat) -> Seq<char> {
    "Layer "@ + decimal_text(n)
}

/// The name shown for a layer: its trimmed name, or `Unnamed layer` when that is empty.
pub open spec fn spec_display_name(name: Seq<char>) -> Seq<char> {
    if spec_trim(name).len() == 0 {
        "Unnamed layer"@
    } else {
        spec_trim(name)
    }
}

/// Whether a layer is fresh: visible, with empty text and history.
pub open spec fn fresh_layer(layer: PointLayer, id: u64, name: Seq<char>, color_index: nat) -> bool {
    &&& layer.id.0 == id
    &&& layer.name@ == name
    &&& layer.visible
    &&& layer.color_index == color_index
    &&& layer.points@ == HistoryView { text: seq![], undo: seq![], redo: seq![] }
}

/// The name of layer number `n`.
fn layer_name(n: usize) -> (name: String)
    ensures
        name@ == spec_layer_name(n as nat),
{
    let mut name = String::from_str("Layer ");
    push_decimal(&mut name, n);
    name
}

impl PointLayer {
    fn new(id: PointLayerId, name: String, color_index: usize) -> (layer: PointLayer)
        ensures
            fresh_layer(layer, id.0, name@, color_index as nat),
    {
        PointLayer { id, name, visible: true, color_index, points: PointsHistory::new() }
    }

    /// Turns the layer back into a fresh `Layer 1` with the first color, keeping its id.
    fn reset_to_default(&mut self)
        ensures
            fresh_layer(*final(self), old(self).id.0, spec_layer_name(1), 0),
    {
        self.name = layer_name(1);
        self.visible = true;
        self.color_index = 0;
        self.points = PointsHistory::new();
    }

    /// The name shown for the layer.
    pub fn display_name(&self) -> (name: String)
        ensures
            name@ == spec_display_name(self.name@),
    {
        let chars = str_to_chars(self.name.as_str());
        let trimmed = trim_chars(chars.as_slice());
        if trimmed.len() == 0 {
            String::from_str("Unnamed layer")
        } else {
            let mut name = String::new();
            push_chars(&mut name, trimmed.as_slice());
            name
        }
    }
}

/// The list of layers and the selection.
#[derive(Debug)]
pub struct PointLayersState {
    pub layers: Vec<PointLayer>,
    pub selected_id: PointLayerId,
    /// The identifier the next new layer gets.
    pub next_id: u64,
    /// The number the next created layer's name carries.
    pub next_name_index: usize,
    /// The palette position the next created layer takes, before wrapping.
    pub next_color_index: usize,
}

/// Whether some layer has the given id.
pub open spec fn has_id(layers: Seq<PointLayer>, id: PointLayerId) -> bool {
    exists|k: int| 0 <= k < layers.len() && (#[trigger] layers[k]).id == id
}

/// The position of the first layer with the given id, or 0 when there is none.
pub open spec fn index_of_id(layers: Seq<PointLayer>, id: PointLayerId) -> int
    decreases layers.len(),
{
    if layers.len() == 0 {
        0
    } else if layers[0].id == id {
        0
    } else if has_id(layers.drop_first(), id) {
        1 + index_of_id(layers.drop_first(), id)
    } else {
        0
    }
}

impl PointLayersState {
    /// Well-formedness: at least one layer, distinct ids below the next id, and the
    /// selected id is one of them.
    pub open spec fn wf(&self) -> bool {
        &&& self.layers@.len() >= 1
        &&& forall|i: int, j: int|
            0 <= i < j < self.layers@.len() ==> (#[trigger] self.layers@[i]).id != (
            #[trigger] self.layers@[j]).id
        &&& forall|i: int| 0 <= i < self.layers@.len() ==> (#[trigger] self.layers@[i]).id.0 < self.next_id
        &&& has_id(self.layers@, self.selected_id)
    }

    /// One fresh layer, `Layer 1` with id 1 and the first color, selected.
    pub fn new() -> (state: PointLayersState)
        ensures
            state.wf(),
            state.layers@.len() == 1,
            fresh_layer(state.layers@[0], 1, spec_layer_name(1), 0),
            state.selected_id.0 == 1,
            state.next_id == 2,
            state.next_name_index == 2,
            state.next_color_index == 1,
    {
        let selected_id = PointLayerId::first();
        let mut layers: Vec<PointLayer> = Vec::new();
        layers.push(PointLayer::new(selected_id, layer_name(1), 0));
        let state = PointLayersState {
            layers,
            selected_id,
            next_id: 2,
            next_name_index: 2,
            next_color_index: 1,
        };
        proof {
            assert(state.layers@[0].id == selected_id);
        }
        state
    }

    /// The position of the selected layer (the first layer when the selection is stale).
    pub fn selected_index(&self) -> (index: usize)
        ensures
            index < self.layers@.len() || self.layers@.len() == 0,
            has_id(self.layers@, self.selected_id) ==> self.layers@[index as int].id == self.selected_id
                && forall|k: int| 0 <= k < index ==> (#[trigger] self.layers@[k]).id != self.selected_id,
            !has_id(self.layers@, self.selected_id) ==> index == 0,
    {
        let mut k: usize = 0;
        while k < self.layers.len()
            invariant
                k <= self.layers@.len(),
                forall|j: int| 0 <= j < k ==> (#[trigger] self.layers@[j]).id != self.selected_id,
            decreases self.layers.len() - k,
        {
            if self.layers[k].id == self.selected_id {
                return k;
            }
            k = k + 1;
        }
        0
    }

    /// Selects the layer with the given id, if there is one.
    pub fn select(&mut self, id: PointLayerId)
        ensures
            final(self).layers@ == old(self).layers@,
            final(self).selected_id == (if has_id(old(self).layers@, id) {
                id
            } else {
                old(self).selected_id
            }),
            final(self).next_id == old(self).next_id,
            final(self).next_name_index == old(self).next_name_index,
            final(self).next_color_index == old(self).next_color_index,
    {
        if self.contains_id(id) {
            self.selected_id = id;
        }
    }

    /// Whether some layer has the given id.
    pub fn contains_id(&self, id: PointLayerId) -> (found: bool)
        ensures
            found == has_id(self.layers@, id),
    {
        let mut k: usize = 0;
        while k < self.layers.len()
            invariant
                k <= self.layers@.len(),
                forall|j: int| 0 <= j < k ==> (#[trigger] self.layers@[j]).id != id,
            decreases self.layers.len() - k,
        {
            if self.layers[k].id == id {
                return true;
            }
            k = k + 1;
        }
        false
    }

    /// Makes the layer with the given id the only visible one; returns whether any
    /// visibility changed. Nothing happens when there is no such layer.
    pub fn show_only(&mut self, id: PointLayerId) -> (changed: bool)
        ensures
            final(self).layers@.len() == old(self).layers@.len(),
            final(self).selected_id == old(self).selected_id,
            final(self).next_id == old(self).next_id,
            final(self).next_name_index == old(self).next_name_index,
            final(self).next_color_index == old(self).next_color_index,
            forall|k: int|
                0 <= k < final(self).layers@.len() ==> {
                    let before = old(self).layers@[k];
                    let after = #[trigger] final(self).layers@[k];
                    &&& after.id == before.id
                    &&& after.name == before.name
                    &&& after.color_index == before.color_index
                    &&& after.points == before.points
                    &&& after.visible == (if has_id(old(self).layers@, id) {
                        before.id == id
                    } else {
                        before.visible
                    })
                },
            changed == (has_id(old(self).layers@, id) && exists|k: int|
                0 <= k < old(self).layers@.len() && (#[trigger] old(self).layers@[k]).visible != (
                old(self).layers@[k].id == id)),
    {
        if !self.contains_id(id) {
            return false;
        }
        let mut changed = false;
        let mut k: usize = 0;
        while k < self.layers.len()
            invariant
                k <= self.layers@.len() == old(self).layers@.len(),
                self.selected_id == old(self).selected_id,
                self.next_id == old(self).next_id,
                self.next_name_index == old(self).next_name_index,
                self.next_color_index == old(self).next_color_index,
                has_id(old(self).layers@, id),
                forall|j: int|
                    0 <= j < self.layers@.len() ==> {
                        let before = old(self).layers@[j];
                        let after = #[trigger] self.layers@[j];
                        &&& after.id == before.id
                        &&& after.name == before.name
                        &&& after.color_index == before.color_index
                        &&& after.points == before.points
                        &&& after.visible == (if j < k {
                            before.id == id
                        } else {
                            before.visible
                        })
                    },
                changed == exists|j: int|
                    0 <= j < k && (#[trigger] old(self).layers@[j]).visible != (old(self).layers@[j].id
                        == id),
            decreases self.layers.len() - k,
        {
            let visible = self.layers[k].id == id;
            if self.layers[k].visible != visible {
                changed = true;
            }
            self.layers[k].visible = visible;
            proof {
                if changed {
                    assert(exists|j: int|
                        0 <= j < k + 1 && (#[trigger] old(self).layers@[j]).visible != (old(
                            self,
                        ).layers@[j].id == id));
                }
            }
            k = k + 1;
        }
        changed
    }

    /// Appends a fresh layer named `Layer n` with the next palette color and selects it.
    pub fn create_empty_layer(&mut self) -> (id: PointLayerId)
        requires
            old(self).wf(),
            old(self).next_id < u64::MAX,
            old(self).next_name_index < usize::MAX,
            old(self).next_color_index < usize::MAX,
        ensures
            final(self).wf(),
            id.0 == old(self).next_id,
            !has_id(old(self).layers@, id),
            final(self).layers@.len() == old(self).layers@.len() + 1,
            final(self).layers@.take(old(self).layers@.len() as int) == old(self).layers@,
            fresh_layer(
                final(self).layers@.last(),
                id.0,
                spec_layer_name(old(self).next_name_index as nat),
                (old(self).next_color_index % LAYER_COLOR_PALETTE_LEN) as nat,
            ),
            final(self).selected_id == id,
            final(self).next_id == old(self).next_id + 1,
            final(self).next_name_index == old(self).next_name_index + 1,
            final(self).next_color_index == old(self).next_color_index + 1,
    {
        let id = PointLayerId(self.next_id);
        self.next_id = self.next_id + 1;
        let name = layer_name(self.next_name_index);
        self.next_name_index = self.next_name_index + 1;
        let color_index = self.next_color_index % LAYER_COLOR_PALETTE_LEN;
        self.next_color_index = self.next_color_index + 1;
        let ghost before = self.layers@;
        self.layers.push(PointLayer::new(id, name, color_index));
        self.selected_id = id;
        proof {
            assert(self.layers@.take(before.len() as int) =~= before);
            assert(self.layers@[before.len() as int].id == id);
            if has_id(before, id) {
                let k = choose|k: int| 0 <= k < before.len() && (#[trigger] before[k]).id == id;
                assert(before[k].id.0 < old(self).next_id);
            }
            assert forall|i: int, j: int|
                0 <= i < j < self.layers@.len() implies (#[trigger] self.layers@[i]).id != (
            #[trigger] self.layers@[j]).id by {
                if j == before.len() {
                    assert(before[i].id.0 < old(self).next_id);
                } else {
                    assert(self.layers@[i] == before[i]);
                    assert(self.layers@[j] == before[j]);
                }
            }
            assert forall|i: int| 0 <= i < self.layers@.len() implies (#[trigger] self.layers@[i]).id.0
                < self.next_id by {
                if i < before.len() {
                    assert(self.layers@[i] == before[i]);
                }
            }
        }
        id
    }

    /// Inserts a copy of the selected layer, named with ` copy` appended, right after it,
    /// and selects the copy.
    pub fn duplicate_selected_layer(&mut self) -> (id: PointLayerId)
        requires
            old(self).wf(),
            old(self).next_id < u64::MAX,
        ensures
            final(self).wf(),
            id.0 == old(self).next_id,
            !has_id(old(self).layers@, id),
            ({
                let at = index_of_selected(old(self)@);
                let source = old(self).layers@[at];
                let copy = final(self).layers@[at + 1];
                &&& final(self).layers@.len() == old(self).layers@.len() + 1
                &&& final(self).layers@.take(at + 1) == old(self).layers@.take(at + 1)
                &&& final(self).layers@.skip(at + 2) == old(self).layers@.skip(at + 1)
                &&& copy.id == id
                &&& copy.name@ == source.name@ + " copy"@
                &&& copy.visible == source.visible
                &&& copy.color_index == source.color_index
                &&& copy.points@ == source.points@
            }),
            final(self).selected_id == id,
            final(self).next_id == old(self).next_id + 1,
            final(self).next_name_index == old(self).next_name_index,
            final(self).next_color_index == old(self).next_color_index,
    {
        let selected_index = self.selected_index();
        let id = PointLayerId(self.next_id);
        self.next_id = self.next_id + 1;
        let source = &self.layers[selected_index];
        let mut name = String::from_str(source.name.as_str());
        name.append(" copy");
        let layer = PointLayer {
            id,
            name,
            visible: source.visible,
            color_index: source.color_index,
            points: source.points.duplicate(),
        };
        let ghost before = self.layers@;
        let count = self.layers.len();
        assert(selected_index < count);
        self.layers.insert(selected_index + 1, layer);
        self.selected_id = id;
        proof {
            let at = selected_index as int;
            assert(at == index_of_selected(old(self)@)) by {
                lemma_index_of_id(before, old(self).selected_id);
            }
            assert(self.layers@.take(at + 1) =~= before.take(at + 1));
            assert(self.layers@.skip(at + 2) =~= before.skip(at + 1));
            if has_id(before, id) {
                let k = choose|k: int| 0 <= k < before.len() && (#[trigger] before[k]).id == id;
                assert(before[k].id.0 < old(self).next_id);
            }
            assert(self.layers@[at + 1].id == id);
            assert forall|i: int, j: int|
                0 <= i < j < self.layers@.len() implies (#[trigger] self.layers@[i]).id != (
            #[trigger] self.layers@[j]).id by {
                let bi = if i <= at { i } else { i - 1 };
                let bj = if j <= at { j } else { j - 1 };
                if i != at + 1 {
                    assert(self.layers@[i] == before[bi]);
                }
                if j != at + 1 {
                    assert(self.layers@[j] == before[bj]);
                }
                if i == at + 1 {
                    assert(before[bj].id.0 < old(self).next_id);
                } else if j == at + 1 {
                    assert(before[bi].id.0 < old(self).next_id);
                }
            }
            assert forall|i: int| 0 <= i < self.layers@.len() implies (#[trigger] self.layers@[i]).id.0
                < self.next_id by {
                if i <= at {
                    assert(self.layers@.take(at + 1)[i] == before.take(at + 1)[i]);
                    assert(self.layers@[i] == before[i]);
                } else if i > at + 1 {
                    assert(self.layers@.skip(at + 2)[i - at - 2] == before.skip(at + 1)[i - at - 2]);
                    assert(self.layers@[i] == before[i - 1]);
                }
            }
        }
        id
    }

    /// Deletes the selected layer and selects the one that took its place (or the new last
    /// one). The last remaining layer is not deleted but reset to a fresh `Layer 1`.
    pub fn delete_selected_layer(&mut self)
        requires
            old(self).wf(),
        ensures
            final(self).wf(),
            final(self).next_id == old(self).next_id,
            final(self).next_color_index == old(self).next_color_index,
            old(self).layers@.len() <= 1 ==> {
                &&& final(self).layers@.len() == 1
                &&& fresh_layer(final(self).layers@[0], old(self).layers@[0].id.0, spec_layer_name(1), 0)
                &&& final(self).selected_id == old(self).layers@[0].id
                &&& final(self).next_name_index == if old(self).next_name_index < 2 {
                    2
                } else {
                    old(self).next_name_index
                }
            },
            old(self).layers@.len() > 1 ==> {
                let at = index_of_selected(old(self)@);
                let remaining = old(self).layers@.remove(at);
                &&& final(self).layers@ == remaining
                &&& final(self).selected_id == remaining[if at < remaining.len() {
                    at
                } else {
                    remaining.len() - 1
                }].id
                &&& final(self).next_name_index == old(self).next_name_index
            },
    {
        if self.layers.len() <= 1 {
            self.layers[0].reset_to_default();
            self.selected_id = self.layers[0].id;
            if self.next_name_index < 2 {
                self.next_name_index = 2;
            }
            proof {
                assert(self.layers@[0].id == self.selected_id);
            }
            return;
        }
        let selected_index = self.selected_index();
        let ghost before = self.layers@;
        self.layers.remove(selected_index);
        let next_index = if selected_index < self.layers.len() {
            selected_index
        } else {
            self.layers.len() - 1
        };
        self.selected_id = self.layers[next_index].id;
        proof {
            let at = selected_index as int;
            assert(at == index_of_selected(old(self)@)) by {
                lemma_index_of_id(before, old(self).selected_id);
            }
            assert forall|i: int, j: int|
                0 <= i < j < self.layers@.len() implies (#[trigger] self.layers@[i]).id != (
            #[trigger] self.layers@[j]).id by {
                let bi = if i < at { i } else { i + 1 };
                let bj = if j < at { j } else { j + 1 };
                assert(self.layers@[i] == before[bi]);
                assert(self.layers@[j] == before[bj]);
            }
            assert forall|i: int| 0 <= i < self.layers@.len() implies (#[trigger] self.layers@[i]).id.0
                < self.next_id by {
                let bi = if i < at { i } else { i + 1 };
                assert(self.layers@[i] == before[bi]);
            }
            assert(self.layers@[next_index as int].id == self.selected_id);
        }
    }
}

/// The position of the selected layer.
pub open spec fn index_of_selected(state: (Seq<PointLayer>, PointLayerId)) -> int {
    index_of_id(state.0, state.1)
}

impl View for PointLayersState {
    type V = (Seq<PointLayer>, PointLayerId);

    open spec fn view(&self) -> (Seq<PointLayer>, PointLayerId) {
        (self.layers@, self.selected_id)
    }
}

/// `index_of_id` is the first position holding the id, when there is one.
pub proof fn lemma_index_of_id(layers: Seq<PointLayer>, id: PointLayerId)
    ensures
        has_id(layers, id) ==> 0 <= index_of_id(layers, id) < layers.len() && layers[index_of_id(
            layers,
            id,
        )].id == id && forall|k: int| 0 <= k < index_of_id(layers, id) ==> (#[trigger] layers[k]).id != id,
        !has_id(layers, id) ==> index_of_id(layers, id) == 0,
    decreases layers.len(),
{
    if layers.len() > 0 {
        let rest = layers.drop_first();
        lemma_index_of_id(rest, id);
        if layers[0].id != id {
            if has_id(layers, id) {
                let k = choose|k: int| 0 <= k < layers.len() && (#[trigger] layers[k]).id == id;
                assert(rest[k - 1].id == id);
            }
            if has_id(rest, id) {
                let k = choose|k: int| 0 <= k < rest.len() && (#[trigger] rest[k]).id == id;
                assert(layers[k + 1].id == id);
                assert forall|j: int| 0 <= j < index_of_id(layers, id) implies (#[trigger] layers[j]).id != id by {
                    if j > 0 {
                        assert(layers[j] == rest[j - 1]);
                    }
                }
            }
        } else {
            assert(layers[0].id == id);
        }
    }
}

} // verus!
