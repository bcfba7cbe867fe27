use vstd::prelude::*;
use crate::synth::{GeneratedArtifact, SetterKind};

verus! {

/// A field's value: a single value, or the elements gathered by an
/// accumulating setter.
#[derive(Clone, Debug, PartialEq, Eq)]
pub enum FieldValue<V> {
    One(V),
    Many(Vec<V>),
}

/// The mathematical content of a `FieldValue`.
pub enum Val<V> {
    One(V),
    Many(Seq<V>),
}

impl<V> FieldValue<V> {
    pub open spec fn model(self) -> Val<V> {
        match self {
            FieldValue::One(v) => Val::One(v),
            FieldValue::Many(vs) => Val::Many(vs@),
        }
    }
}

pub open spec fn slot_model<V>(s: Option<FieldValue<V>>) -> Option<Val<V>> {
    match s {
        Some(v) => Some(v.model()),
        None => None,
    }
}

/// Where a field's value comes from when the record is assembled.
#[derive(Clone, Copy, Debug, PartialEq, Eq, Structural)]
pub enum Source {
    /// The value a setter stored.
    Explicit,
    /// The field's default expression, evaluated now.
    Default,
    /// The declared type's own default (a field without a setter).
    TypeDefault,
}

/// A build that cannot produce the record.
#[derive(Clone, Debug, PartialEq, Eq)]
pub enum BuildError {
    /// The named required field was never set and has no default.
    Missing(String),
    /// The validator refused the assembled record, with its message.
    Validation(String),
}

impl BuildError {
    /// This is the error that names `field` as missing.
    pub open spec fn is_missing(self, field: Seq<char>) -> bool {
        match self {
            BuildError::Missing(n) => n@ == field,
            _ => false,
        }
    }
}

/// What a setter of the given kind leaves in a slot that held `cur`.
pub open spec fn applied<V>(kind: SetterKind, cur: Option<Val<V>>, v: V) -> Val<V> {
    match kind {
        SetterKind::Append => match cur {
            Some(Val::Many(s)) => Val::Many(s.push(v)),
            _ => Val::Many(seq![v]),
        },
        _ => Val::One(v),
    }
}

impl GeneratedArtifact {
    pub open spec fn wf(self) -> bool {
        self.setters.len() == self.fields.len() && self.defaults.len() == self.fields.len()
    }

    /// Where field `i` takes its value from, given whether its slot is set;
    /// `None` when it has nowhere to take it from.
    pub open spec fn source_of(self, set: bool, i: int) -> Option<Source> {
        if set {
            Some(Source::Explicit)
        } else if self.defaults@[i] {
            Some(Source::Default)
        } else if !self.fields@[i].field_enabled {
            Some(Source::TypeDefault)
        } else {
            None
        }
    }

    /// Finds the field whose setter has the given name.
    pub fn setter_index(&self, name: &String) -> (r: Option<usize>)
        ensures
            r matches Some(i) ==> i < self.setters.len() && self.setters@[i as int] is Some
                && self.setters@[i as int].unwrap().name@ == name@,
            r is None ==> forall|i: int|
                0 <= i < self.setters.len() && #[trigger] self.setters@[i] is Some
                    ==> self.setters@[i].unwrap().name@ != name@,
    {
        let mut i: usize = 0;
        while i < self.setters.len()
            invariant
                i <= self.setters.len(),
                forall|k: int|
                    0 <= k < i && #[trigger] self.setters@[k] is Some ==> self.setters@[k].unwrap().name@
                        != name@,
            decreases self.setters.len() - i,
        {
            match &self.setters[i] {
                Some(s) => {
                    if s.name == *name {
                        return Some(i);
                    }
                },
                None => {},
            }
            i = i + 1;
        }
        None
    }
}

/// Builder state: one slot per field, unset until a setter fills it.
pub struct Builder<V> {
    pub slots: Vec<Option<FieldValue<V>>>,
}

pub open spec fn slots_model<V>(s: Seq<Option<FieldValue<V>>>) -> Seq<Option<Val<V>>> {
    s.map_values(|x: Option<FieldValue<V>>| slot_model(x))
}

pub open spec fn values_model<V>(s: Seq<FieldValue<V>>) -> Seq<Val<V>> {
    s.map_values(|x: FieldValue<V>| x.model())
}

/// The record assembled from the slots, taking `fills` where a slot is unset.
pub open spec fn assembled<V>(slots: Seq<Option<Val<V>>>, fills: Seq<Option<Val<V>>>) -> Seq<Val<V>> {
    Seq::new(
        slots.len(),
        |i: int|
            match slots[i] {
                Some(v) => v,
                None => fills[i].unwrap(),
            },
    )
}

impl<V> Builder<V> {
    pub open spec fn model(self) -> Seq<Option<Val<V>>> {
        slots_model(self.slots@)
    }

    /// An empty builder for the given artifact.
    pub fn new(art: &GeneratedArtifact) -> (r: Self)
        ensures
            r.model().len() == art.fields.len(),
            forall|i: int| 0 <= i < r.model().len() ==> #[trigger] r.model()[i] is None,
    {
        let mut slots: Vec<Option<FieldValue<V>>> = Vec::new();
        let mut i: usize = 0;
        while i < art.fields.len()
            invariant
                i <= art.fields.len(),
                slots.len() == i,
                forall|k: int| 0 <= k < i ==> #[trigger] slots@[k] is None,
            decreases art.fields.len() - i,
        {
            slots.push(None);
            i = i + 1;
        }
        Builder { slots }
    }

    /// Calls the setter of field `i` with `v`: a replacing setter stores `v`,
    /// an accumulating one appends it to what the field holds.
    pub fn apply(&mut self, art: &GeneratedArtifact, i: usize, v: V)
        requires
            i < old(self).slots.len(),
            i < art.setters.len(),
            art.setters@[i as int] is Some,
        ensures
            final(self).model() == old(self).model().update(
                i as int,
                Some(applied(art.setters@[i as int].unwrap().kind, old(self).model()[i as int], v)),
            ),
    {
        let ghost before = self.model();
        let kind = match &art.setters[i] {
            Some(s) => s.kind,
            None => SetterKind::Replace,
        };
        let cur = self.slots.remove(i);
        let next = match kind {
            SetterKind::Append => match cur {
                Some(FieldValue::Many(mut vs)) => {
                    vs.push(v);
                    FieldValue::Many(vs)
                },
                _ => {
                    let mut vs: Vec<V> = Vec::new();
                    vs.push(v);
                    assert(vs@ =~= seq![v]);
                    FieldValue::Many(vs)
                },
            },
            _ => FieldValue::One(v),
        };
        assert(slot_model(cur) == before[i as int]);
        assert(next.model() == applied(kind, before[i as int], v));
        self.slots.insert(i, Some(next));
        proof {
            assert(self.model() =~= before.update(
                i as int,
                Some(applied(art.setters@[i as int].unwrap().kind, before[i as int], v)),
            ));
        }
    }
}


impl<V> Builder<V> {
    /// Decides, in declaration order, where each field takes its value from:
    /// the stored value, else its default expression, else (for a field
    /// without a setter) its type's default. A default is asked for only
    /// where the field is unset. The first field with none of these is
    /// reported as missing.
    pub fn resolve(&self, art: &GeneratedArtifact) -> (r: Result<Vec<Source>, BuildError>)
        requires
            art.wf(),
            self.slots.len() == art.fields.len(),
        ensures
            r is Ok <==> forall|i: int|
                0 <= i < art.fields.len() ==> (#[trigger] art.source_of(self.model()[i] is Some, i)) is Some,
            r matches Ok(p) ==> p.len() == art.fields.len() && forall|i: int|
                0 <= i < p.len() ==> Some(#[trigger] p@[i]) == art.source_of(self.model()[i] is Some, i),
            r matches Err(e) ==> exists|i: int|
                0 <= i < art.fields.len() && (#[trigger] art.source_of(self.model()[i] is Some, i)) is None
                    && (forall|j: int| 0 <= j < i ==> (#[trigger] art.source_of(self.model()[j] is Some, j)) is Some)
                    && e.is_missing(art.fields@[i].field_ident@),
    {
        let n = self.slots.len();
        let mut plan: Vec<Source> = Vec::new();
        let mut i: usize = 0;
        while i < n
            invariant
                n == self.slots.len(),
                n == art.fields.len(),
                art.wf(),
                i <= n,
                plan.len() == i,
                forall|k: int| 0 <= k < i ==> Some(#[trigger] plan@[k]) == art.source_of(self.model()[k] is Some, k),
                forall|k: int| 0 <= k < i ==> (#[trigger] art.source_of(self.model()[k] is Some, k)) is Some,
            decreases n - i,
        {
            assert(self.model()[i as int] is Some <==> self.slots@[i as int] is Some);
            let src = if self.slots[i].is_some() {
                Source::Explicit
            } else if art.defaults[i] {
                Source::Default
            } else if !art.fields[i].field_enabled {
                Source::TypeDefault
            } else {
                let e = BuildError::Missing(art.fields[i].field_ident.clone());
                assert(art.source_of(self.model()[i as int] is Some, i as int) is None);
                assert(forall|j: int| 0 <= j < i ==> (#[trigger] art.source_of(self.model()[j] is Some, j)) is Some);
                return Err(e);
            };
            plan.push(src);
            i = i + 1;
        }
        Ok(plan)
    }

    /// Assembles the record: each field's stored value, or its entry in
    /// `fills` where the field is unset.
    pub fn assemble(self, fills: Vec<Option<FieldValue<V>>>) -> (r: Vec<FieldValue<V>>)
        requires
            fills.len() == self.slots.len(),
            forall|i: int| 0 <= i < self.slots.len() && #[trigger] self.slots@[i] is None ==> fills@[i] is Some,
        ensures
            values_model(r@) == assembled(
                self.model(),
                slots_model(fills@),
            ),
    {
        let ghost slots0 = self.model();
        let ghost fills0 = slots_model(fills@);
        let ghost want = assembled(slots0, fills0);
        let n = self.slots.len();
        let mut slots = self.slots;
        let mut fills = fills;
        let mut r: Vec<FieldValue<V>> = Vec::new();
        let mut i: usize = 0;
        while i < n
            invariant
                i <= n,
                n == slots0.len(),
                fills0.len() == n,
                slots.len() == n - i,
                fills.len() == n - i,
                forall|k: int| 0 <= k < n - i ==> slot_model(#[trigger] slots@[k]) == slots0[k + i],
                forall|k: int| 0 <= k < n - i ==> slot_model(#[trigger] fills@[k]) == fills0[k + i],
                forall|k: int| 0 <= k < n ==> slots0[k] is None ==> fills0[k] is Some,
                want == assembled(slots0, fills0),
                values_model(r@) == want.take(i as int),
            decreases n - i,
        {
            let s = slots.remove(0);
            let f = fills.remove(0);
            let v = match s {
                Some(v) => v,
                None => match f {
                    Some(v) => v,
                    None => {
                        assert(false);
                        return r;
                    },
                },
            };
            assert(v.model() == want[i as int]);
            let ghost before = r@;
            r.push(v);
            assert(values_model(r@) =~= values_model(before).push(want[i as int]));
            assert(want.take(i + 1) =~= want.take(i as int).push(want[i as int]));
            i = i + 1;
        }
        assert(want.take(n as int) =~= want);
        r
    }
}

/// The outcome of a build once the validator has judged the assembled
/// record: the record when the artifact has no validator or the validator
/// accepted it, else the validator's message as the error.
pub fn validated<V>(art: &GeneratedArtifact, record: Vec<FieldValue<V>>, verdict: Result<(), String>) -> (r: Result<Vec<FieldValue<V>>, BuildError>)
    ensures
        r is Ok <==> (!art.validates || verdict is Ok),
        r matches Ok(rec) ==> rec == record,
        r matches Err(e) ==> e matches BuildError::Validation(m) && verdict == Err::<(), String>(m),
{
    if !art.validates {
        return Ok(record);
    }
    match verdict {
        Ok(()) => Ok(record),
        Err(m) => Err(BuildError::Validation(m)),
    }
}

} // verus!
