use vstd::prelude::*;
use vstd::string::*;
use crate::schema::{resolve_setter_name, EachElement, FieldSpec, Pattern, RecordSchema};
use crate::field::{copy_strings, BuilderField};

verus! {

/// A directive that can clash with another on the same field.
#[derive(Clone, Copy, Debug, PartialEq, Eq, Structural)]
pub enum Directive {
    Each,
    Into,
}

/// A schema that cannot be turned into a builder.
#[derive(Clone, Debug, PartialEq, Eq)]
pub enum ConfigError {
    /// The named field, whose type is not a sequence, asks both for an
    /// accumulating setter and for a converting one.
    ConflictingDirectives(String, Directive, Directive),
    /// The named field asks for an accumulating setter on a non-sequence type.
    EachOnNonSequence(String),
    /// The setters of the two named fields resolve to the same name.
    NameCollision(String, String),
    /// The named field has no setter, no default and a type without a default.
    UnfillablePlaceholder(String),
}

/// What a setter does with its argument.
#[derive(Clone, Copy, Debug, PartialEq, Eq, Structural)]
pub enum SetterKind {
    /// Stores the value, replacing any earlier one.
    Replace,
    /// Converts the value into the field's type, then stores it.
    Convert,
    /// Appends one element to the field's sequence.
    Append,
}

/// One setter of the generated builder.
pub struct SetterDecl {
    pub name: String,
    pub param_type: String,
    pub kind: SetterKind,
}

/// The generated builder: its fields, one optional setter per field (in field
/// order), which fields have a default, and the pass-through metadata.
pub struct GeneratedArtifact {
    pub builder_name: String,
    pub pattern: Pattern,
    pub fields: Vec<BuilderField>,
    pub setters: Vec<Option<SetterDecl>>,
    pub defaults: Vec<bool>,
    pub derives: Vec<String>,
    pub validates: bool,
}

/// An accumulating and a converting setter asked for on a field that is not a
/// sequence. On a sequence field the accumulating setter wins.
pub open spec fn conflicting(f: FieldSpec) -> bool {
    f.each.is_some() && f.into_conversion && !f.is_sequence
}

pub open spec fn each_misplaced(f: FieldSpec) -> bool {
    f.each.is_some() && !f.is_sequence
}

pub open spec fn kind_of(f: FieldSpec) -> SetterKind {
    if f.each.is_some() {
        SetterKind::Append
    } else if f.into_conversion {
        SetterKind::Convert
    } else {
        SetterKind::Replace
    }
}

pub open spec fn param_type_of(f: FieldSpec) -> Seq<char> {
    match f.each {
        Some(e) => e.element_type@,
        None => f.ty@,
    }
}

/// The builder field that `f` maps to.
pub open spec fn maps_to(f: FieldSpec, b: BuilderField) -> bool {
    &&& b.field_ident@ == f.ident@
    &&& b.field_type@ == f.ty@
    &&& b.field_enabled == f.setter_enabled
    &&& b.field_visibility == f.visibility
    &&& b.pass_attrs@ == f.pass_attrs@
    &&& b.nested_attrs@ == f.nested_attrs@
}

pub open spec fn builder_suffix() -> Seq<char> {
    seq!['B', 'u', 'i', 'l', 'd', 'e', 'r']
}

impl RecordSchema {
    pub open spec fn unfillable(self, i: int) -> bool {
        !self.fields@[i].setter_enabled && !self.defaulted(i) && !self.fields@[i].type_has_default
    }

    pub open spec fn field_ok(self, i: int) -> bool {
        !conflicting(self.fields@[i]) && !each_misplaced(self.fields@[i]) && !self.unfillable(i)
    }

    /// Fields `j` and `i` both have setters, and the setters share a name.
    pub open spec fn collide(self, j: int, i: int) -> bool {
        &&& self.fields@[j].setter_enabled
        &&& self.fields@[i].setter_enabled
        &&& self.setter_name(j) == self.setter_name(i)
    }

    /// The first `n` fields are well configured and their setters distinct.
    pub open spec fn ok_upto(self, n: int) -> bool {
        &&& forall|i: int| 0 <= i < n ==> self.field_ok(i)
        &&& forall|j: int, i: int| 0 <= j < i < n ==> !self.collide(j, i)
    }

    pub open spec fn valid(self) -> bool {
        self.ok_upto(self.fields.len() as int)
    }

    /// `e` truly describes a fault of field `i`.
    pub open spec fn error_at(self, i: int, e: ConfigError) -> bool {
        let f = self.fields@[i];
        match e {
            ConfigError::ConflictingDirectives(n, a, b) => n@ == f.ident@ && a == Directive::Each
                && b == Directive::Into && conflicting(f),
            ConfigError::EachOnNonSequence(n) => n@ == f.ident@ && each_misplaced(f),
            ConfigError::UnfillablePlaceholder(n) => n@ == f.ident@ && self.unfillable(i),
            ConfigError::NameCollision(a, b) => exists|j: int|
                0 <= j < i && #[trigger] self.collide(j, i) && a@ == self.fields@[j].ident@ && b@
                    == f.ident@,
        }
    }

    /// The setter, if any, that field `i` gets.
    pub open spec fn setter_at(self, i: int, s: Option<SetterDecl>) -> bool {
        let f = self.fields@[i];
        if f.setter_enabled {
            &&& s is Some
            &&& s.unwrap().name@ == self.setter_name(i)
            &&& s.unwrap().param_type@ == param_type_of(f)
            &&& s.unwrap().kind == kind_of(f)
        } else {
            s is None
        }
    }

    /// `a` is the builder generated for this schema.
    pub open spec fn generates(self, a: GeneratedArtifact) -> bool {
        &&& a.builder_name@ == self.name@ + builder_suffix()
        &&& a.pattern == self.pattern
        &&& a.fields.len() == self.fields.len()
        &&& a.setters.len() == self.fields.len()
        &&& a.defaults.len() == self.fields.len()
        &&& forall|i: int| 0 <= i < self.fields.len() ==> maps_to(self.fields@[i], #[trigger] a.fields@[i])
        &&& forall|i: int| 0 <= i < self.fields.len() ==> self.setter_at(i, #[trigger] a.setters@[i])
        &&& forall|i: int| 0 <= i < self.fields.len() ==> #[trigger] a.defaults@[i] == self.defaulted(i)
        &&& a.derives@ == self.derives@
        &&& a.validates == self.has_validator
    }
}

fn copy_each(e: &EachElement) -> (r: EachElement)
    ensures
        r.name@ == e.name@,
        r.element_type@ == e.element_type@,
{
    EachElement { name: e.name.clone(), element_type: e.element_type.clone() }
}

/// Maps a field to its builder field: an optional slot when it has a setter,
/// a placeholder when it has none.
pub fn builder_field(f: &FieldSpec) -> (r: BuilderField)
    ensures
        maps_to(*f, r),
{
    BuilderField {
        field_ident: f.ident.clone(),
        field_type: f.ty.clone(),
        field_enabled: f.setter_enabled,
        field_visibility: f.visibility,
        pass_attrs: copy_strings(&f.pass_attrs),
        nested_attrs: copy_strings(&f.nested_attrs),
    }
}

/// Derives the setter of field `i`, or none when its setter is disabled.
pub fn setter_for(schema: &RecordSchema, i: usize) -> (r: Option<SetterDecl>)
    requires
        i < schema.fields.len(),
    ensures
        schema.setter_at(i as int, r),
{
    let f = &schema.fields[i];
    if !f.setter_enabled {
        return None;
    }
    let name = resolve_setter_name(&schema.setter_prefix, &schema.setter_suffix, f);
    let (param_type, kind) = match &f.each {
        Some(e) => (copy_each(e).element_type, SetterKind::Append),
        None => (f.ty.clone(), if f.into_conversion { SetterKind::Convert } else { SetterKind::Replace }),
    };
    Some(SetterDecl { name, param_type, kind })
}

/// Checks field `i` on its own.
fn check_field(schema: &RecordSchema, i: usize) -> (r: Result<(), ConfigError>)
    requires
        i < schema.fields.len(),
    ensures
        r is Ok <==> schema.field_ok(i as int),
        r matches Err(e) ==> schema.error_at(i as int, e),
{
    let f = &schema.fields[i];
    if f.each.is_some() && f.into_conversion && !f.is_sequence {
        return Err(ConfigError::ConflictingDirectives(f.ident.clone(), Directive::Each, Directive::Into));
    }
    if f.each.is_some() && !f.is_sequence {
        return Err(ConfigError::EachOnNonSequence(f.ident.clone()));
    }
    if !f.setter_enabled && !(schema.default_all || f.has_default) && !f.type_has_default {
        return Err(ConfigError::UnfillablePlaceholder(f.ident.clone()));
    }
    Ok(())
}

/// Checks the whole schema: fields in declaration order, each on its own and
/// then against the setters of the fields before it; the first fault found
/// is reported.
pub fn check_schema(schema: &RecordSchema) -> (r: Result<(), ConfigError>)
    ensures
        r is Ok <==> schema.valid(),
        r matches Err(e) ==> exists|k: int|
            0 <= k < schema.fields.len() && schema.ok_upto(k) && #[trigger] schema.error_at(k, e),
{
    let n = schema.fields.len();
    let mut names: Vec<String> = Vec::new();
    let mut i: usize = 0;
    while i < n
        invariant
            n == schema.fields.len(),
            i <= n,
            names.len() == i,
            forall|k: int| 0 <= k < i ==> (#[trigger] names@[k])@ == schema.setter_name(k),
            schema.ok_upto(i as int),
        decreases n - i,
    {
        match check_field(schema, i) {
            Err(e) => {
                assert(schema.error_at(i as int, e));
                return Err(e);
            },
            Ok(()) => {},
        }
        let name = resolve_setter_name(&schema.setter_prefix, &schema.setter_suffix, &schema.fields[i]);
        if schema.fields[i].setter_enabled {
            let mut j: usize = 0;
            while j < i
                invariant
                    n == schema.fields.len(),
                    i < n,
                    j <= i,
                    names.len() == i,
                    forall|k: int| 0 <= k < i ==> (#[trigger] names@[k])@ == schema.setter_name(k),
                    name@ == schema.setter_name(i as int),
                    schema.fields@[i as int].setter_enabled,
                    schema.ok_upto(i as int),
                    schema.field_ok(i as int),
                    forall|k: int| 0 <= k < j ==> !schema.collide(k, i as int),
                decreases i - j,
            {
                if schema.fields[j].setter_enabled && names[j] == name {
                    let e = ConfigError::NameCollision(schema.fields[j].ident.clone(), schema.fields[i].ident.clone());
                    assert(schema.collide(j as int, i as int));
                    assert(schema.error_at(i as int, e));
                    return Err(e);
                }
                j = j + 1;
            }
        }
        names.push(name);
        i = i + 1;
    }
    Ok(())
}

/// Synthesizes the builder for a schema, or reports the first configuration
/// fault.
pub fn synthesize(schema: &RecordSchema) -> (r: Result<GeneratedArtifact, ConfigError>)
    ensures
        r is Ok <==> schema.valid(),
        r matches Ok(a) ==> schema.generates(a),
        r matches Ok(a) ==> forall|j: int, i: int|
            0 <= j < i < a.setters.len() && #[trigger] a.setters@[j] is Some && #[trigger] a.setters@[i] is Some
                ==> a.setters@[j].unwrap().name@ != a.setters@[i].unwrap().name@,
        r matches Err(e) ==> exists|k: int|
            0 <= k < schema.fields.len() && schema.ok_upto(k) && #[trigger] schema.error_at(k, e),
{
    match check_schema(schema) {
        Err(e) => {
            return Err(e);
        },
        Ok(()) => {},
    }
    let n = schema.fields.len();
    let mut fields: Vec<BuilderField> = Vec::new();
    let mut setters: Vec<Option<SetterDecl>> = Vec::new();
    let mut defaults: Vec<bool> = Vec::new();
    let mut i: usize = 0;
    while i < n
        invariant
            n == schema.fields.len(),
            i <= n,
            fields.len() == i,
            setters.len() == i,
            defaults.len() == i,
            forall|k: int| 0 <= k < i ==> maps_to(schema.fields@[k], #[trigger] fields@[k]),
            forall|k: int| 0 <= k < i ==> schema.setter_at(k, #[trigger] setters@[k]),
            forall|k: int| 0 <= k < i ==> #[trigger] defaults@[k] == schema.defaulted(k),
        decreases n - i,
    {
        fields.push(builder_field(&schema.fields[i]));
        setters.push(setter_for(schema, i));
        defaults.push(schema.default_all || schema.fields[i].has_default);
        i = i + 1;
    }
    let builder_name = schema.name.clone().concat("Builder");
    proof {
        reveal_strlit("Builder");
    }
    let a = GeneratedArtifact {
        builder_name,
        pattern: schema.pattern,
        fields,
        setters,
        defaults,
        derives: copy_strings(&schema.derives),
        validates: schema.has_validator,
    };
    proof {
        assert(a.builder_name@ =~= schema.name@ + builder_suffix());
        assert forall|j: int, i: int|
            0 <= j < i < a.setters.len() && #[trigger] a.setters@[j] is Some && #[trigger] a.setters@[i] is Some
            implies a.setters@[j].unwrap().name@ != a.setters@[i].unwrap().name@ by {
            assert(!schema.collide(j, i));
        }
    }
    Ok(a)
}

} // verus!
