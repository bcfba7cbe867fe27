use derive_builder_core::assembly::{validated, BuildError, Builder, FieldValue, Source};
use derive_builder_core::field::{BuilderField, Storage};
use derive_builder_core::schema::{resolve_setter_name, EachElement, FieldSpec, RecordSchema, Visibility};
use derive_builder_core::synth::{synthesize, ConfigError, Directive, GeneratedArtifact, SetterKind};

fn default_builder_field() -> BuilderField {
    BuilderField {
        field_ident: "foo".to_string(),
        field_type: "String".to_string(),
        field_enabled: true,
        field_visibility: Visibility::Public,
        pass_attrs: vec!["some_attr".to_string()],
        nested_attrs: vec![],
    }
}

fn set<V>(b: &mut Builder<V>, art: &GeneratedArtifact, name: &str, v: V) {
    let i = art.setter_index(&name.to_string()).expect("no such setter");
    b.apply(art, i, v);
}

fn build<V>(
    b: Builder<V>,
    art: &GeneratedArtifact,
    mut defaults: impl FnMut(usize) -> FieldValue<V>,
) -> Result<Vec<FieldValue<V>>, BuildError> {
    let plan = b.resolve(art)?;
    let fills: Vec<Option<FieldValue<V>>> = plan
        .iter()
        .enumerate()
        .map(|(i, s)| match s {
            Source::Explicit => None,
            _ => Some(defaults(i)),
        })
        .collect();
    let record = b.assemble(fills);
    validated(art, record, Ok(()))
}

fn lorem() -> RecordSchema {
    let mut dolor = FieldSpec::new("dolor", "&'static str");
    dolor.setter_prefix = Some("set".to_string());
    let mut s = RecordSchema::new("Lorem", vec![FieldSpec::new("ipsum", "&'static str"), dolor]);
    s.setter_prefix = Some("with".to_string());
    s
}

#[test]
fn prefixed_setters() {
    let art = synthesize(&lorem()).unwrap();
    let mut b: Builder<&'static str> = Builder::new(&art);
    set(&mut b, &art, "with_ipsum", "ipsum");
    set(&mut b, &art, "set_dolor", "dolor");
    let x = build(b, &art, |_| panic!("no default is needed")).unwrap();
    assert_eq!(x, vec![FieldValue::One("ipsum"), FieldValue::One("dolor")]);
}

#[test]
fn setter_enabled() {
    let field = default_builder_field();
    let d = field.declaration();
    assert_eq!(d.attrs, vec!["some_attr".to_string()]);
    assert_eq!(d.visibility, Visibility::Public);
    assert_eq!(d.ident, "foo");
    assert_eq!(d.storage, Storage::Optional);
    assert_eq!(d.ty, "String");
}

#[test]
fn setter_disabled() {
    let mut field = default_builder_field();
    field.field_enabled = false;
    let d = field.declaration();
    assert_eq!(d.attrs, vec!["some_attr".to_string()]);
    assert_eq!(d.visibility, Visibility::Inherited);
    assert_eq!(d.ident, "foo");
    assert_eq!(d.storage, Storage::Placeholder);
    assert_eq!(d.ty, "String");
}

#[test]
fn private_field() {
    let mut field = default_builder_field();
    field.field_visibility = Visibility::Inherited;
    let d = field.declaration();
    assert_eq!(d.attrs, vec!["some_attr".to_string()]);
    assert_eq!(d.visibility, Visibility::Inherited);
    assert_eq!(d.ident, "foo");
    assert_eq!(d.storage, Storage::Optional);
    assert_eq!(d.ty, "String");
}

#[test]
fn nested_attrs_follow_pass_attrs() {
    let mut field = default_builder_field();
    field.nested_attrs = vec!["serde(rename = \"dolor\")".to_string()];
    assert_eq!(
        field.declaration().attrs,
        vec!["some_attr".to_string(), "serde(rename = \"dolor\")".to_string()]
    );
    field.field_enabled = false;
    assert_eq!(field.declaration().attrs, vec!["some_attr".to_string()]);
}

#[test]
fn default_initializer_names_field() {
    assert_eq!(default_builder_field().default_initializer_tokens().ident, "foo");
}

#[test]
fn override_beats_prefix() {
    let mut f = FieldSpec::new("timeout", "u16");
    f.setter_name = Some("configure".to_string());
    let name = resolve_setter_name(&Some("with_".to_string()), &None, &f);
    assert_eq!(name, "configure");
}

#[test]
fn prefix_and_suffix_precedence() {
    let mut f = FieldSpec::new("timeout", "u16");
    assert_eq!(resolve_setter_name(&None, &None, &f), "timeout");
    assert_eq!(resolve_setter_name(&Some("with".to_string()), &None, &f), "with_timeout");
    assert_eq!(
        resolve_setter_name(&Some("with".to_string()), &Some("value".to_string()), &f),
        "with_timeout_value"
    );
    f.setter_prefix = Some("set".to_string());
    assert_eq!(
        resolve_setter_name(&Some("with".to_string()), &Some("value".to_string()), &f),
        "set_timeout_value"
    );
}

#[test]
fn missing_field_is_named() {
    let s = RecordSchema::new("Channel", vec![FieldSpec::new("id", "u32"), FieldSpec::new("token", "u64")]);
    let art = synthesize(&s).unwrap();
    let mut b: Builder<u64> = Builder::new(&art);
    set(&mut b, &art, "id", 7);
    assert_eq!(b.resolve(&art), Err(BuildError::Missing("token".to_string())));
}

#[test]
fn first_missing_field_in_order() {
    let s = RecordSchema::new("Channel", vec![FieldSpec::new("id", "u32"), FieldSpec::new("token", "u64")]);
    let art = synthesize(&s).unwrap();
    let b: Builder<u64> = Builder::new(&art);
    assert_eq!(b.resolve(&art), Err(BuildError::Missing("id".to_string())));
}

#[test]
fn accumulating_setter_appends_in_order() {
    let mut f = FieldSpec::new("items", "Vec<u8>");
    f.is_sequence = true;
    f.each = Some(EachElement { name: "item".to_string(), element_type: "u8".to_string() });
    let art = synthesize(&RecordSchema::new("Bag", vec![f])).unwrap();
    let setter = art.setters[0].as_ref().unwrap();
    assert_eq!(setter.name, "item");
    assert_eq!(setter.param_type, "u8");
    assert_eq!(setter.kind, SetterKind::Append);
    let mut b: Builder<u8> = Builder::new(&art);
    set(&mut b, &art, "item", 1);
    set(&mut b, &art, "item", 2);
    set(&mut b, &art, "item", 3);
    let x = build(b, &art, |_| panic!("no default is needed")).unwrap();
    assert_eq!(x, vec![FieldValue::Many(vec![1, 2, 3])]);
}

#[test]
fn second_call_overwrites() {
    let art = synthesize(&RecordSchema::new("Lorem", vec![FieldSpec::new("ipsum", "u32")])).unwrap();
    let mut b: Builder<u32> = Builder::new(&art);
    set(&mut b, &art, "ipsum", 1);
    set(&mut b, &art, "ipsum", 2);
    assert_eq!(build(b, &art, |_| panic!("no default is needed")).unwrap(), vec![FieldValue::One(2)]);
}

#[test]
fn default_runs_only_when_unset() {
    let mut a = FieldSpec::new("a", "u32");
    a.has_default = true;
    let mut b_field = FieldSpec::new("b", "u32");
    b_field.has_default = true;
    let art = synthesize(&RecordSchema::new("Pair", vec![a, b_field])).unwrap();
    let mut b: Builder<u32> = Builder::new(&art);
    set(&mut b, &art, "a", 5);
    assert_eq!(b.resolve(&art), Ok(vec![Source::Explicit, Source::Default]));
    let mut calls: Vec<usize> = vec![];
    let x = build(b, &art, |i| {
        calls.push(i);
        FieldValue::One(40)
    })
    .unwrap();
    assert_eq!(calls, vec![1]);
    assert_eq!(x, vec![FieldValue::One(5), FieldValue::One(40)]);
}

#[test]
fn round_trip_with_defaults() {
    let mut f = FieldSpec::new("retries", "u32");
    f.has_default = true;
    let mut hidden = FieldSpec::new("marker", "u32");
    hidden.setter_enabled = false;
    hidden.type_has_default = true;
    let s = RecordSchema::new("Conf", vec![FieldSpec::new("timeout", "u32"), f, hidden]);
    let art = synthesize(&s).unwrap();
    let mut b: Builder<u32> = Builder::new(&art);
    set(&mut b, &art, "timeout", 80);
    assert_eq!(b.resolve(&art), Ok(vec![Source::Explicit, Source::Default, Source::TypeDefault]));
    let x = build(b, &art, |i| FieldValue::One(if i == 1 { 3 } else { 0 })).unwrap();
    assert_eq!(x, vec![FieldValue::One(80), FieldValue::One(3), FieldValue::One(0)]);
}

#[test]
fn disabled_setter_leaves_others_alone() {
    let mut s = lorem();
    let before = synthesize(&s).unwrap();
    s.fields[0].setter_enabled = false;
    s.fields[0].type_has_default = true;
    let after = synthesize(&s).unwrap();
    assert!(after.setters[0].is_none());
    assert_eq!(after.fields[0].declaration().storage, Storage::Placeholder);
    let (x, y) = (before.setters[1].as_ref().unwrap(), after.setters[1].as_ref().unwrap());
    assert_eq!(x.name, y.name);
    assert_eq!(x.name, "set_dolor");
    assert_eq!(x.kind, y.kind);
}

#[test]
fn artifact_carries_metadata() {
    let mut s = lorem();
    s.derives = vec!["Debug".to_string()];
    s.has_validator = true;
    let art = synthesize(&s).unwrap();
    assert_eq!(art.builder_name, "LoremBuilder");
    assert_eq!(art.derives, vec!["Debug".to_string()]);
    assert_eq!(art.fields.len(), 2);
    assert_eq!(art.fields[1].field_ident, "dolor");
    assert!(art.validates);
    assert_eq!(art.setters[0].as_ref().unwrap().name, "with_ipsum");
}

#[test]
fn into_setter_converts() {
    let mut f = FieldSpec::new("id", "Uuid");
    f.into_conversion = true;
    let art = synthesize(&RecordSchema::new("Channel", vec![f])).unwrap();
    assert_eq!(art.setters[0].as_ref().unwrap().kind, SetterKind::Convert);
}

#[test]
fn conflicting_directives_rejected() {
    let mut f = FieldSpec::new("count", "u8");
    f.into_conversion = true;
    f.each = Some(EachElement { name: "one".to_string(), element_type: "u8".to_string() });
    let r = synthesize(&RecordSchema::new("Bag", vec![f]));
    assert_eq!(
        r.err(),
        Some(ConfigError::ConflictingDirectives("count".to_string(), Directive::Each, Directive::Into))
    );
}

#[test]
fn sequence_with_each_and_into_accumulates() {
    let mut f = FieldSpec::new("items", "Vec<u8>");
    f.is_sequence = true;
    f.into_conversion = true;
    f.each = Some(EachElement { name: "item".to_string(), element_type: "u8".to_string() });
    let art = synthesize(&RecordSchema::new("Bag", vec![f])).unwrap();
    assert_eq!(art.setters[0].as_ref().unwrap().kind, SetterKind::Append);
}

#[test]
fn each_on_non_sequence_rejected() {
    let mut f = FieldSpec::new("count", "u8");
    f.each = Some(EachElement { name: "one".to_string(), element_type: "u8".to_string() });
    let r = synthesize(&RecordSchema::new("Bag", vec![f]));
    assert_eq!(r.err(), Some(ConfigError::EachOnNonSequence("count".to_string())));
}

#[test]
fn name_collision_rejected() {
    let mut g = FieldSpec::new("b", "u8");
    g.setter_name = Some("a".to_string());
    let r = synthesize(&RecordSchema::new("Two", vec![FieldSpec::new("a", "u8"), g]));
    assert_eq!(r.err(), Some(ConfigError::NameCollision("a".to_string(), "b".to_string())));
}

#[test]
fn disabled_fields_never_collide() {
    let mut g = FieldSpec::new("b", "u8");
    g.setter_name = Some("a".to_string());
    g.setter_enabled = false;
    g.has_default = true;
    assert!(synthesize(&RecordSchema::new("Two", vec![FieldSpec::new("a", "u8"), g])).is_ok());
}

#[test]
fn unfillable_placeholder_rejected() {
    let mut f = FieldSpec::new("phantom", "T");
    f.setter_enabled = false;
    let r = synthesize(&RecordSchema::new("Gen", vec![f]));
    assert_eq!(r.err(), Some(ConfigError::UnfillablePlaceholder("phantom".to_string())));
}

#[test]
fn struct_default_policy_fills_placeholder() {
    let mut f = FieldSpec::new("phantom", "T");
    f.setter_enabled = false;
    let mut s = RecordSchema::new("Gen", vec![f]);
    s.default_all = true;
    let art = synthesize(&s).unwrap();
    let b: Builder<u8> = Builder::new(&art);
    assert_eq!(b.resolve(&art), Ok(vec![Source::Default]));
}

#[test]
fn validator_failure_is_reported() {
    let mut s = lorem();
    s.has_validator = true;
    let art = synthesize(&s).unwrap();
    let record = vec![FieldValue::One(1u8), FieldValue::One(2u8)];
    assert_eq!(
        validated(&art, record.clone(), Err("too small".to_string())),
        Err(BuildError::Validation("too small".to_string()))
    );
    assert_eq!(validated(&art, record.clone(), Ok(())), Ok(record.clone()));
    s.has_validator = false;
    let plain = synthesize(&s).unwrap();
    assert_eq!(validated(&plain, record.clone(), Err("ignored".to_string())), Ok(record));
}
