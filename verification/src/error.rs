//! The one error that decoding raises.

use vstd::prelude::*;
use vstd::std_specs::cmp::PartialEqSpecImpl;

verus! {

/// One step of the way from the decoded value down to a member.
pub enum PathStepModel {
    Key(Seq<char>),
    Index(int),
}

/// A way into a JSON value, outermost step first.
pub type PathModel = Seq<PathStepModel>;

/// One step of a field path: a member of an object or an element of an array.
#[derive(Debug)]
pub enum PathStep {
    Key(String),
    Index(usize),
}

impl View for PathStep {
    type V = PathStepModel;

    open spec fn view(&self) -> PathStepModel {
        match self {
            PathStep::Key(name) => PathStepModel::Key(name@),
            PathStep::Index(index) => PathStepModel::Index(*index as int),
        }
    }
}

/// A member that is present on the wire has the wrong JSON shape, or the keys
/// of a variant are combined in a way that names no variant. `path` leads from
/// the decoded value to the offending member and is empty where the value
/// itself is at fault.
#[derive(Debug)]
pub struct SchemaMismatch {
    pub path: Vec<PathStep>,
}

impl View for SchemaMismatch {
    type V = PathModel;

    open spec fn view(&self) -> PathModel {
        self.path@.map_values(|step: PathStep| step@)
    }
}

impl Clone for PathStep {
    fn clone(&self) -> (copy: PathStep)
        ensures
            copy@ == self@,
    {
        match self {
            PathStep::Key(name) => PathStep::Key(name.clone()),
            PathStep::Index(index) => PathStep::Index(*index),
        }
    }
}

impl Clone for SchemaMismatch {
    fn clone(&self) -> (copy: SchemaMismatch)
        ensures
            copy@ == self@,
    {
        let copy = SchemaMismatch { path: self.path.clone() };
        assert(copy@ =~= self@);
        copy
    }
}

impl PartialEq for PathStep {
    fn eq(&self, other: &PathStep) -> (equal: bool) {
        match (self, other) {
            (PathStep::Key(name), PathStep::Key(other_name)) => *name == *other_name,
            (PathStep::Index(index), PathStep::Index(other_index)) => *index == *other_index,
            _ => false,
        }
    }
}

impl PartialEqSpecImpl for PathStep {
    open spec fn obeys_eq_spec() -> bool {
        true
    }

    /// Two steps are equal exactly if they stand for the same step.
    open spec fn eq_spec(&self, other: &PathStep) -> bool {
        self@ == other@
    }
}

impl Eq for PathStep {

}

impl PartialEq for SchemaMismatch {
    fn eq(&self, other: &SchemaMismatch) -> (equal: bool) {
        proof {
            let a = self.path@;
            let b = other.path@;
            if self@ == other@ {
                assert(self@.len() == other@.len());
                assert forall|i: int| 0 <= i < a.len() implies (#[trigger] a[i])@ == b[i]@ by {
                    assert(self@[i] == other@[i]);
                }
            }
            if a.len() == b.len() && forall|i: int| 0 <= i < a.len() ==> (#[trigger] a[i])@ == b[i]@ {
                assert(self@ =~= other@);
            }
        }
        self.path == other.path
    }
}

impl PartialEqSpecImpl for SchemaMismatch {
    open spec fn obeys_eq_spec() -> bool {
        true
    }

    /// Two mismatches are equal exactly if their paths are.
    open spec fn eq_spec(&self, other: &SchemaMismatch) -> bool {
        self@ == other@
    }
}

impl Eq for SchemaMismatch {

}

impl SchemaMismatch {
    /// The decoded value itself has the wrong shape.
    pub fn at_root() -> (e: SchemaMismatch)
        ensures
            e@ == Seq::<PathStepModel>::empty(),
    {
        let e = SchemaMismatch { path: Vec::new() };
        assert(e@ =~= Seq::<PathStepModel>::empty());
        e
    }

    /// The member `name` of the decoded object has the wrong shape.
    pub fn at_key(name: &str) -> (e: SchemaMismatch)
        ensures
            e@ == seq![PathStepModel::Key(name@)],
    {
        SchemaMismatch::at_root().under_key(name)
    }

    /// The same fault, seen from the object that holds the faulty value as its
    /// member `name`.
    pub fn under_key(self, name: &str) -> (e: SchemaMismatch)
        ensures
            e@ == seq![PathStepModel::Key(name@)] + self@,
    {
        let mut path = self.path;
        path.insert(0, PathStep::Key(name.to_owned()));
        let e = SchemaMismatch { path };
        assert(e@ =~= seq![PathStepModel::Key(name@)] + self@);
        e
    }

    /// The same fault, seen from the array that holds the faulty value as its
    /// element `index`.
    pub fn under_index(self, index: usize) -> (e: SchemaMismatch)
        ensures
            e@ == seq![PathStepModel::Index(index as int)] + self@,
    {
        let mut path = self.path;
        path.insert(0, PathStep::Index(index));
        let e = SchemaMismatch { path };
        assert(e@ =~= seq![PathStepModel::Index(index as int)] + self@);
        e
    }
}

} // verus!
