//! Segments, labels, and the resolution of an address to a label.

use vstd::prelude::*;

verus! {

/// One of the three segments of an object file.
#[derive(Clone, Copy, Debug, PartialEq, Eq, Structural)]
pub enum SegmentType {
    Text,
    Data,
    Bss,
}

/// A named address. A label is resolved when its name is known; only a
/// resolved label can stand for an address in a listing.
#[derive(Clone, Debug, PartialEq, Eq)]
pub struct LabelEntry {
    pub name: String,
    pub address: u32,
    pub seg_type: SegmentType,
    pub resolved: bool,
    pub is_global: bool,
    pub file_no: usize,
}

/// The use of an address by a word of the segment `source_seg`. The address
/// lies in `target_seg`, and `label_entry` is the position, in the label
/// table, of the label that stands at it, if there is one.
#[derive(Clone, Copy, Debug, PartialEq, Eq, Structural)]
pub struct Reference {
    pub label_entry: Option<usize>,
    pub source_seg: SegmentType,
    pub target_seg: SegmentType,
    pub address: u32,
}

/// What a label says, with its name as a character sequence.
pub ghost struct LabelSpec {
    pub name: Seq<char>,
    pub address: u32,
    pub seg_type: SegmentType,
    pub resolved: bool,
    pub is_global: bool,
    pub file_no: usize,
}

impl View for LabelEntry {
    type V = LabelSpec;

    open spec fn view(&self) -> LabelSpec {
        LabelSpec {
            name: self.name@,
            address: self.address,
            seg_type: self.seg_type,
            resolved: self.resolved,
            is_global: self.is_global,
            file_no: self.file_no,
        }
    }
}

/// The labels of `labels` as the models that contracts speak of.
pub open spec fn labels_model(labels: Seq<LabelEntry>) -> Seq<LabelSpec> {
    labels.map_values(|label: LabelEntry| label@)
}

/// Whether `label` can stand for `address`.
pub open spec fn label_names(label: LabelSpec, address: u32) -> bool {
    label.resolved && label.address == address
}

/// Whether position `i` of `labels` can stand for `address` and no earlier
/// position can.
pub open spec fn is_first_label(labels: Seq<LabelSpec>, i: int, address: u32) -> bool {
    &&& 0 <= i < labels.len()
    &&& label_names(labels[i], address)
    &&& forall|j: int| 0 <= j < i ==> !label_names(#[trigger] labels[j], address)
}

/// The position of the first label that can stand for `address`, if there
/// is one.
pub open spec fn resolve_spec(labels: Seq<LabelSpec>, address: u32) -> Option<int> {
    if exists|i: int| is_first_label(labels, i, address) {
        Some(choose|i: int| is_first_label(labels, i, address))
    } else {
        None
    }
}

/// Two positions that are both the first label for one address are the same
/// position.
pub proof fn lemma_first_label_unique(labels: Seq<LabelSpec>, i: int, j: int, address: u32)
    requires
        is_first_label(labels, i, address),
        is_first_label(labels, j, address),
    ensures
        i == j,
{
}

/// Finds the first resolved label at `address`. That no label stands there
/// is no error: the result is then `None`.
pub fn resolve_label(labels: &[LabelEntry], address: u32) -> (found: Option<usize>)
    ensures
        match found {
            Some(i) => resolve_spec(labels_model(labels@), address) == Some(i as int),
            None => resolve_spec(labels_model(labels@), address) is None,
        },
        match found {
            Some(i) => is_first_label(labels_model(labels@), i as int, address),
            None => forall|j: int|
                0 <= j < labels@.len() ==> !label_names(
                    #[trigger] labels_model(labels@)[j],
                    address,
                ),
        },
{
    let ghost model = labels_model(labels@);
    let mut i: usize = 0;
    while i < labels.len()
        invariant
            i <= labels@.len(),
            model == labels_model(labels@),
            forall|j: int| 0 <= j < i ==> !label_names(#[trigger] model[j], address),
        decreases labels@.len() - i,
    {
        if labels[i].resolved && labels[i].address == address {
            proof {
                assert(is_first_label(model, i as int, address));
                let chosen = choose|k: int| is_first_label(model, k, address);
                lemma_first_label_unique(model, i as int, chosen, address);
            }
            return Some(i);
        }
        i += 1;
    }
    proof {
        assert forall|k: int| !is_first_label(model, k, address) by {
            if 0 <= k < model.len() {
                assert(!label_names(model[k], address));
            }
        }
    }
    None
}

} // verus!
