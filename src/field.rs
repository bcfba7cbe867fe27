use vstd::prelude::*;
use crate::schema::Visibility;

verus! {

/// How a builder field stores its value.
#[derive(Clone, Copy, Debug, PartialEq, Eq, Structural)]
pub enum Storage {
    /// `Option<T>`: absent until a setter supplies it.
    Optional,
    /// `PhantomData<T>`: holds nothing, only binds the type.
    Placeholder,
}

/// Field of the builder struct.
pub struct BuilderField {
    /// Name of the target field.
    pub field_ident: String,
    /// Type of the target field.
    pub field_type: String,
    /// Whether the builder has a setter for this field; a field without one
    /// becomes a placeholder so that generic parameters stay in use.
    pub field_enabled: bool,
    pub field_visibility: Visibility,
    /// Attributes passed through to the builder field.
    pub pass_attrs: Vec<String>,
    /// Extra attributes requested for the builder field.
    pub nested_attrs: Vec<String>,
}

/// The builder field as it is to be emitted:
/// `#[attrs]* vis ident: Option<ty>` or `#[attrs]* ident: PhantomData<ty>`.
pub struct FieldDecl {
    pub attrs: Vec<String>,
    pub visibility: Visibility,
    pub ident: String,
    pub storage: Storage,
    pub ty: String,
}

/// A struct field initializer `ident: Default::default()`.
pub struct DefaultInitializer {
    pub ident: String,
}

pub fn copy_strings(v: &Vec<String>) -> (r: Vec<String>)
    ensures
        r@ == v@,
{
    let mut r: Vec<String> = Vec::new();
    let mut i: usize = 0;
    while i < v.len()
        invariant
            i <= v.len(),
            r@ == v@.take(i as int),
        decreases v.len() - i,
    {
        r.push(v[i].clone());
        i = i + 1;
        assert(r@ =~= v@.take(i as int));
    }
    assert(v@.take(v.len() as int) =~= v@);
    r
}

impl BuilderField {
    pub open spec fn storage(self) -> Storage {
        if self.field_enabled { Storage::Optional } else { Storage::Placeholder }
    }

    /// Attributes of the emitted field: the passed-through ones, then the
    /// requested ones; a placeholder carries the passed-through ones only.
    pub open spec fn decl_attrs(self) -> Seq<String> {
        if self.field_enabled {
            self.pass_attrs@ + self.nested_attrs@
        } else {
            self.pass_attrs@
        }
    }

    /// A placeholder field is always private.
    pub open spec fn decl_visibility(self) -> Visibility {
        if self.field_enabled { self.field_visibility } else { Visibility::Inherited }
    }

    /// Describes the builder field that this field becomes.
    pub fn declaration(&self) -> (r: FieldDecl)
        ensures
            r.attrs@ == self.decl_attrs(),
            r.visibility == self.decl_visibility(),
            r.ident@ == self.field_ident@,
            r.storage == self.storage(),
            r.ty@ == self.field_type@,
    {
        let mut attrs = copy_strings(&self.pass_attrs);
        if self.field_enabled {
            let mut i: usize = 0;
            while i < self.nested_attrs.len()
                invariant
                    i <= self.nested_attrs.len(),
                    attrs@ == self.pass_attrs@ + self.nested_attrs@.take(i as int),
                decreases self.nested_attrs.len() - i,
            {
                attrs.push(self.nested_attrs[i].clone());
                i = i + 1;
                assert(attrs@ =~= self.pass_attrs@ + self.nested_attrs@.take(i as int));
            }
            assert(self.nested_attrs@.take(i as int) =~= self.nested_attrs@);
        }
        FieldDecl {
            attrs,
            visibility: if self.field_enabled { self.field_visibility } else { Visibility::Inherited },
            ident: self.field_ident.clone(),
            storage: if self.field_enabled { Storage::Optional } else { Storage::Placeholder },
            ty: self.field_type.clone(),
        }
    }

    /// Describes a struct field initializer that sets the field to its
    /// type's default value.
    pub fn default_initializer_tokens(&self) -> (r: DefaultInitializer)
        ensures
            r.ident@ == self.field_ident@,
    {
        DefaultInitializer { ident: self.field_ident.clone() }
    }
}

} // verus!
