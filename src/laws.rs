use vstd::prelude::*;
use crate::assembly::{applied, assembled, Source, Val};
use crate::schema::{FieldSpec, RecordSchema};
use crate::synth::{GeneratedArtifact, SetterDecl, SetterKind};

verus! {

/// When every field is either set or has a default to fall back on, the build
/// finds a source for every field, and the assembled record holds each set
/// field's stored value and each unset field's supplied default.
pub proof fn round_trip<V>(art: GeneratedArtifact, slots: Seq<Option<Val<V>>>, fills: Seq<Option<Val<V>>>)
    requires
        art.wf(),
        slots.len() == art.fields.len(),
        fills.len() == slots.len(),
        forall|i: int|
            0 <= i < slots.len() ==> #[trigger] slots[i] is Some || art.defaults@[i]
                || !art.fields@[i].field_enabled,
        forall|i: int| 0 <= i < slots.len() && #[trigger] slots[i] is None ==> fills[i] is Some,
    ensures
        forall|i: int| 0 <= i < slots.len() ==> (#[trigger] art.source_of(slots[i] is Some, i)) is Some,
        assembled(slots, fills).len() == slots.len(),
        forall|i: int|
            0 <= i < slots.len() ==> #[trigger] assembled(slots, fills)[i] == (match slots[i] {
                Some(v) => v,
                None => fills[i].unwrap(),
            }),
{
}

/// A value passed to a field's replacing setter is the value the assembled
/// record holds for that field, whatever the slot held before and whatever
/// the other fields hold.
pub proof fn set_value_reaches_record<V>(
    kind: SetterKind,
    slots: Seq<Option<Val<V>>>,
    fills: Seq<Option<Val<V>>>,
    i: int,
    v: V,
)
    requires
        kind != SetterKind::Append,
        0 <= i < slots.len(),
        fills.len() == slots.len(),
    ensures
        assembled(slots.update(i, Some(applied(kind, slots[i], v))), fills)[i] == Val::One(v),
        forall|j: int|
            0 <= j < slots.len() && j != i ==> #[trigger] assembled(
                slots.update(i, Some(applied(kind, slots[i], v))),
                fills,
            )[j] == assembled(slots, fills)[j],
{
}

/// A field's default expression is asked for exactly when the field was left
/// unset and has one; a field that was set never triggers its default.
pub proof fn default_laziness(art: GeneratedArtifact, set: bool, i: int)
    requires
        art.wf(),
        0 <= i < art.fields.len(),
    ensures
        (art.source_of(set, i) == Some(Source::Default)) <==> (!set && art.defaults@[i]),
        set ==> art.source_of(set, i) == Some(Source::Explicit),
{
}

/// Calling an accumulating setter with `a`, `b`, `c` appends them in that
/// order after whatever the field already held; no call drops an element.
pub proof fn accumulation_order<V>(prior: Seq<V>, a: V, b: V, c: V)
    ensures
        applied(
            SetterKind::Append,
            Some(applied(SetterKind::Append, Some(applied(SetterKind::Append, None, a)), b)),
            c,
        ) == Val::Many(seq![a, b, c]),
        applied(
            SetterKind::Append,
            Some(applied(SetterKind::Append, Some(applied(SetterKind::Append, Some(Val::Many(prior)), a)), b)),
            c,
        ) == Val::Many(prior + seq![a, b, c]),
{
    assert(seq![a].push(b).push(c) =~= seq![a, b, c]);
    assert(prior.push(a).push(b).push(c) =~= prior + seq![a, b, c]);
}

/// Calling a non-accumulating setter twice leaves the second value.
pub proof fn overwrite<V>(kind: SetterKind, cur: Option<Val<V>>, v1: V, v2: V)
    requires
        kind != SetterKind::Append,
    ensures
        applied(kind, Some(applied(kind, cur, v1)), v2) == Val::One(v2),
{
}

/// Disabling one field's setter leaves every other field's setter (its name,
/// parameter and kind) as it was, and introduces no name clash among them.
pub proof fn placeholder_neutrality(s: RecordSchema, t: RecordSchema, k: int)
    requires
        0 <= k < s.fields.len(),
        t.fields.len() == s.fields.len(),
        t.setter_prefix == s.setter_prefix,
        t.setter_suffix == s.setter_suffix,
        t.fields@[k] == (FieldSpec { setter_enabled: false, ..s.fields@[k] }),
        forall|j: int| 0 <= j < s.fields.len() && j != k ==> #[trigger] t.fields@[j] == s.fields@[j],
    ensures
        forall|j: int| 0 <= j < s.fields.len() && j != k ==> #[trigger] t.setter_name(j) == s.setter_name(j),
        forall|j: int, x: Option<SetterDecl>|
            0 <= j < s.fields.len() && j != k ==> #[trigger] t.setter_at(j, x) == s.setter_at(j, x),
        forall|j: int, i: int|
            0 <= j < s.fields.len() && 0 <= i < s.fields.len() && j != k && i != k ==> #[trigger] t.collide(j, i)
                == s.collide(j, i),
        forall|j: int| 0 <= j < s.fields.len() ==> !#[trigger] t.collide(j, k) && !t.collide(k, j),
{
}

} // verus!
