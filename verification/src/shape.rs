//! What a target type looks like to the resolver: its field names, in declaration order.

use vstd::prelude::*;
use crate::key_transform::kebab;
use crate::key_transform::snake_case_to_kebab_case;

verus! {

/// The shape of the type that is to be populated.
///
/// A field's place in `fields` is its declaration order: fields are resolved, and their values
/// handed back, in that order.
#[derive(Debug, Clone, PartialEq, Eq)]
pub enum TargetShape {
    /// A record with named fields.
    Record { fields: Vec<String> },
    /// Anything that is not a record: a scalar, a sequence, a map, an enumeration.
    Other,
}

/// A [`TargetShape`] as contracts speak of it.
pub enum TargetShapeView {
    Record { fields: Seq<Seq<char>> },
    Other,
}

/// The field names held in a vector, each as its text.
pub open spec fn names(fields: Seq<String>) -> Seq<Seq<char>> {
    Seq::new(fields.len(), |i: int| fields[i]@)
}

/// No two of the names lead to the same store key.
pub open spec fn distinct_keys(names: Seq<Seq<char>>) -> bool {
    forall|i: int, j: int|
        0 <= i < j < names.len() ==> kebab(#[trigger] names[i]) != kebab(#[trigger] names[j])
}

impl View for TargetShape {
    type V = TargetShapeView;

    open spec fn view(&self) -> TargetShapeView {
        match *self {
            TargetShape::Record { fields } => TargetShapeView::Record { fields: names(fields@) },
            TargetShape::Other => TargetShapeView::Other,
        }
    }
}

impl TargetShapeView {
    /// The field names, in declaration order; none for a shape that is no record.
    pub open spec fn fields(self) -> Seq<Seq<char>> {
        match self {
            TargetShapeView::Record { fields } => fields,
            TargetShapeView::Other => Seq::empty(),
        }
    }

    /// The shape can be resolved: it is a record, and each field has a store key of its own.
    pub open spec fn supported(self) -> bool {
        self is Record && distinct_keys(self.fields())
    }
}

/// Tells whether each of the field names has a store key of its own.
pub fn has_distinct_keys(fields: &Vec<String>) -> (distinct: bool)
    ensures
        distinct == distinct_keys(names(fields@)),
{
    let ghost all = names(fields@);
    let mut keys: Vec<String> = Vec::new();
    let mut n: usize = 0;
    while n < fields.len()
        invariant
            n <= fields.len(),
            all == names(fields@),
            keys.len() == n,
            forall|i: int| 0 <= i < n ==> (#[trigger] keys[i])@ == kebab(all[i]),
            forall|i: int, j: int|
                0 <= i < j < n ==> kebab(#[trigger] all[i]) != kebab(#[trigger] all[j]),
        decreases fields.len() - n,
    {
        let key = snake_case_to_kebab_case(fields[n].as_str());
        let mut earlier: usize = 0;
        while earlier < n
            invariant
                earlier <= n < fields.len(),
                all == names(fields@),
                keys.len() == n,
                key@ == kebab(all[n as int]),
                forall|i: int| 0 <= i < n ==> (#[trigger] keys[i])@ == kebab(all[i]),
                forall|i: int| 0 <= i < earlier ==> kebab(#[trigger] all[i]) != kebab(all[n as int]),
            decreases n - earlier,
        {
            if keys[earlier] == key {
                assert(kebab(all[earlier as int]) == kebab(all[n as int]));
                return false;
            }
            earlier += 1;
        }
        keys.push(key);
        n += 1;
    }
    true
}

/// Fields with store keys of their own have names of their own: a supported record names no
/// field twice.
pub proof fn law_distinct_keys_mean_distinct_names(names: Seq<Seq<char>>)
    requires
        distinct_keys(names),
    ensures
        names.no_duplicates(),
{
    assert forall|i: int, j: int| 0 <= i < names.len() && 0 <= j < names.len() && i != j implies names[i]
        != names[j] by {
        if i < j {
            assert(kebab(names[i]) != kebab(names[j]));
        } else {
            assert(kebab(names[j]) != kebab(names[i]));
        }
    }
}

impl TargetShape {
    /// Tells whether the shape can be resolved.
    pub fn is_supported(&self) -> (supported: bool)
        ensures
            supported == self@.supported(),
    {
        match self {
            TargetShape::Record { fields } => has_distinct_keys(fields),
            TargetShape::Other => false,
        }
    }
}

} // verus!
