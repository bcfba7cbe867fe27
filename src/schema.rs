use vstd::prelude::*;
use vstd::string::*;

verus! {

/// Ownership discipline shared by every setter of one generated builder.
#[derive(Clone, Copy, Debug, PartialEq, Eq, Structural)]
pub enum Pattern {
    /// Setters consume the builder and return it by value.
    Owned,
    /// Setters take and return a mutable reference.
    Mutable,
    /// Setters take a shared reference and return a new builder.
    Immutable,
}

/// Visibility copied onto a builder field.
#[derive(Clone, Copy, Debug, PartialEq, Eq, Structural)]
pub enum Visibility {
    Public,
    Inherited,
}

/// An accumulating setter: its name and the type of one element.
pub struct EachElement {
    pub name: String,
    pub element_type: String,
}

/// One field of the record, with its directives.
pub struct FieldSpec {
    pub ident: String,
    pub ty: String,
    /// The declared type is a homogeneous ordered sequence.
    pub is_sequence: bool,
    /// The declared type can build a default value of its own.
    pub type_has_default: bool,
    pub setter_enabled: bool,
    pub setter_name: Option<String>,
    pub setter_prefix: Option<String>,
    pub setter_suffix: Option<String>,
    pub into_conversion: bool,
    pub each: Option<EachElement>,
    /// A default expression is configured for this field.
    pub has_default: bool,
    pub visibility: Visibility,
    pub pass_attrs: Vec<String>,
    pub nested_attrs: Vec<String>,
}

/// The record's structural description and struct-level configuration.
pub struct RecordSchema {
    pub name: String,
    pub pattern: Pattern,
    pub setter_prefix: Option<String>,
    pub setter_suffix: Option<String>,
    /// Every field falls back to a default when left unset.
    pub default_all: bool,
    /// Traits the generated builder must itself implement.
    pub derives: Vec<String>,
    /// A validator runs on the assembled record.
    pub has_validator: bool,
    pub fields: Vec<FieldSpec>,
}

pub open spec fn opt_view(o: Option<String>) -> Option<Seq<char>> {
    match o {
        Some(s) => Some(s@),
        None => None,
    }
}

/// The field-level choice when there is one, else the struct-level one.
pub open spec fn either(field: Option<Seq<char>>, record: Option<Seq<char>>) -> Option<Seq<char>> {
    match field {
        Some(f) => Some(f),
        None => record,
    }
}

/// `prefix_ident_suffix`, each part joined with an underscore when present.
pub open spec fn joined(prefix: Option<Seq<char>>, ident: Seq<char>, suffix: Option<Seq<char>>) -> Seq<char> {
    let head = match prefix {
        Some(p) => p + seq!['_'] + ident,
        None => ident,
    };
    match suffix {
        Some(s) => head + seq!['_'] + s,
        None => head,
    }
}

/// The name of a field's setter: an accumulating setter's own name, else the
/// field's exact override, else the identifier between the prefix and suffix
/// that the field (or failing that, the record) asks for.
pub open spec fn setter_name_of(
    record_prefix: Option<Seq<char>>,
    record_suffix: Option<Seq<char>>,
    f: FieldSpec,
) -> Seq<char> {
    match f.each {
        Some(e) => e.name@,
        None => match f.setter_name {
            Some(n) => n@,
            None => joined(
                either(opt_view(f.setter_prefix), record_prefix),
                f.ident@,
                either(opt_view(f.setter_suffix), record_suffix),
            ),
        },
    }
}

impl FieldSpec {
    /// A field with every directive at its default: a replacing setter named
    /// after the field, no default, public, no extra attributes.
    pub fn new(ident: &str, ty: &str) -> (r: FieldSpec)
        ensures
            r.ident@ == ident@,
            r.ty@ == ty@,
            !r.is_sequence,
            !r.type_has_default,
            r.setter_enabled,
            r.setter_name is None,
            r.setter_prefix is None,
            r.setter_suffix is None,
            !r.into_conversion,
            r.each is None,
            !r.has_default,
            r.visibility == Visibility::Public,
            r.pass_attrs@.len() == 0,
            r.nested_attrs@.len() == 0,
    {
        FieldSpec {
            ident: ident.to_owned(),
            ty: ty.to_owned(),
            is_sequence: false,
            type_has_default: false,
            setter_enabled: true,
            setter_name: None,
            setter_prefix: None,
            setter_suffix: None,
            into_conversion: false,
            each: None,
            has_default: false,
            visibility: Visibility::Public,
            pass_attrs: Vec::new(),
            nested_attrs: Vec::new(),
        }
    }
}

impl RecordSchema {
    /// A schema with owned setters, no prefix or suffix, no defaults, no
    /// derives and no validator.
    pub fn new(name: &str, fields: Vec<FieldSpec>) -> (r: RecordSchema)
        ensures
            r.name@ == name@,
            r.pattern == Pattern::Owned,
            r.setter_prefix is None,
            r.setter_suffix is None,
            !r.default_all,
            r.derives@.len() == 0,
            !r.has_validator,
            r.fields@ == fields@,
    {
        RecordSchema {
            name: name.to_owned(),
            pattern: Pattern::Owned,
            setter_prefix: None,
            setter_suffix: None,
            default_all: false,
            derives: Vec::new(),
            has_validator: false,
            fields,
        }
    }

    pub open spec fn setter_name(self, i: int) -> Seq<char> {
        setter_name_of(opt_view(self.setter_prefix), opt_view(self.setter_suffix), self.fields@[i])
    }

    /// Whether field `i` has a default once the struct-level policy is applied.
    pub open spec fn defaulted(self, i: int) -> bool {
        self.default_all || self.fields@[i].has_default
    }
}

fn copy_opt(o: &Option<String>) -> (r: Option<String>)
    ensures
        opt_view(r) == opt_view(*o),
{
    match o {
        Some(s) => Some(s.clone()),
        None => None,
    }
}

fn pick(field: &Option<String>, record: &Option<String>) -> (r: Option<String>)
    ensures
        opt_view(r) == either(opt_view(*field), opt_view(*record)),
{
    match field {
        Some(s) => Some(s.clone()),
        None => copy_opt(record),
    }
}

/// Resolves the name of `f`'s setter under the record's prefix and suffix.
pub fn resolve_setter_name(record_prefix: &Option<String>, record_suffix: &Option<String>, f: &FieldSpec) -> (r: String)
    ensures
        r@ == setter_name_of(opt_view(*record_prefix), opt_view(*record_suffix), *f),
        f.each.is_none() && f.setter_name.is_some() ==> r@ == f.setter_name.unwrap()@,
{
    match &f.each {
        Some(e) => return e.name.clone(),
        None => {},
    }
    match &f.setter_name {
        Some(n) => return n.clone(),
        None => {},
    }
    let prefix = pick(&f.setter_prefix, record_prefix);
    let suffix = pick(&f.setter_suffix, record_suffix);
    let mut name = String::new();
    match &prefix {
        Some(p) => {
            name.append(p.as_str());
            name.append("_");
        },
        None => {},
    }
    name.append(f.ident.as_str());
    match &suffix {
        Some(s) => {
            name.append("_");
            name.append(s.as_str());
        },
        None => {},
    }
    proof {
        reveal_strlit("_");
        assert(name@ =~= setter_name_of(opt_view(*record_prefix), opt_view(*record_suffix), *f));
    }
    name
}

} // verus!
