//! Builds a struct schema from a struct declaration.
//!
//! Per field, the emission rule is: an annotation `skip` suppresses both
//! accessors unconditionally; otherwise a getter exists iff the field is
//! public or asks for one, and a setter exists iff the field is public or
//! asks for one, independently.  A field type must be a supported value
//! type, or an opaque type declared earlier in the build.  All entry-point
//! names are claimed atomically; any failure leaves the session unchanged.
use crate::decl::{FfiError, FieldDeclView, StructDecl, StructDeclView, TypeExpr, TypeExprView};
use crate::naming::{
    clone_symbol, default_symbol, drop_symbol, getter_symbol, names_contain, setter_symbol,
    spec_clone_symbol, spec_default_symbol, spec_drop_symbol, spec_getter_symbol,
    spec_setter_symbol,
};
use crate::session::{spec_claim_ok, Session};
use crate::translator::{classify, spec_classify};
use crate::wrapper::struct_wrapper::{
    DefaultConstructor, DefaultConstructorView, FieldWrapper, FieldWrapperType, FieldWrapperView,
    Getter, GetterView, Setter, SetterView, StructWrapper, StructWrapperView,
};
use crate::wrapper::{ParsedWrapper, ParsedWrapperView, Wrapper, WrapperView};
use vstd::prelude::*;

verus! {

/// The three per-field annotation flags.
#[derive(Clone, Copy, Debug, PartialEq, Eq, Structural)]
pub struct FieldAttributes {
    pub getter_attr: bool,
    pub setter_attr: bool,
    pub skip_attr: bool,
}

/// The flags a field's annotation list resolves to.
pub open spec fn spec_field_attributes(anns: Seq<Seq<char>>) -> FieldAttributes {
    FieldAttributes {
        getter_attr: anns.contains("getter"@),
        setter_attr: anns.contains("setter"@),
        skip_attr: anns.contains("skip"@),
    }
}

pub fn extract_field_attributes(anns: &Vec<String>) -> (r: FieldAttributes)
    ensures
        r == spec_field_attributes(anns.deep_view()),
{
    FieldAttributes {
        getter_attr: names_contain(anns, "getter"),
        setter_attr: names_contain(anns, "setter"),
        skip_attr: names_contain(anns, "skip"),
    }
}

/// The emission rule for getters: never under `skip`; otherwise for public
/// fields and on request.
pub open spec fn spec_getter_resolved(attrs: FieldAttributes, is_public: bool) -> bool {
    !attrs.skip_attr && (is_public || attrs.getter_attr)
}

/// The emission rule for setters, independent of the getter's.
pub open spec fn spec_setter_resolved(attrs: FieldAttributes, is_public: bool) -> bool {
    !attrs.skip_attr && (is_public || attrs.setter_attr)
}

/// The resolved getter of a field, when the rule grants one.
pub open spec fn spec_generate_getter(
    attrs: FieldAttributes,
    class_name: Seq<char>,
    field_name: Seq<char>,
    is_public: bool,
) -> Option<GetterView> {
    if spec_getter_resolved(attrs, is_public) {
        Option::Some(
            GetterView {
                name: "get_"@ + field_name,
                extern_fn_name: spec_getter_symbol(class_name, field_name),
            },
        )
    } else {
        Option::None
    }
}

/// The resolved setter of a field, when the rule grants one.
pub open spec fn spec_generate_setter(
    attrs: FieldAttributes,
    class_name: Seq<char>,
    field_name: Seq<char>,
    is_public: bool,
) -> Option<SetterView> {
    if spec_setter_resolved(attrs, is_public) {
        Option::Some(
            SetterView {
                name: "set_"@ + field_name,
                extern_fn_name: spec_setter_symbol(class_name, field_name),
            },
        )
    } else {
        Option::None
    }
}

pub fn generate_getter(
    attrs: &FieldAttributes,
    class_name: &str,
    field_name: &str,
    is_public: bool,
) -> (r: Option<Getter>)
    ensures
        r.deep_view() == spec_generate_getter(*attrs, class_name@, field_name@, is_public),
{
    if !attrs.skip_attr && (is_public || attrs.getter_attr) {
        let mut name = String::from_str("get_");
        name.append(field_name);
        Option::Some(Getter { name, extern_fn_name: getter_symbol(class_name, field_name) })
    } else {
        Option::None
    }
}

pub fn generate_setter(
    attrs: &FieldAttributes,
    class_name: &str,
    field_name: &str,
    is_public: bool,
) -> (r: Option<Setter>)
    ensures
        r.deep_view() == spec_generate_setter(*attrs, class_name@, field_name@, is_public),
{
    if !attrs.skip_attr && (is_public || attrs.setter_attr) {
        let mut name = String::from_str("set_");
        name.append(field_name);
        Option::Some(Setter { name, extern_fn_name: setter_symbol(class_name, field_name) })
    } else {
        Option::None
    }
}

/// The failure a single field causes, if any: an unnamed field is an
/// unsupported shape; a non-identifier type, or an opaque type not declared
/// earlier, is an unsupported type.
pub open spec fn spec_field_error(f: FieldDeclView, declared: Seq<Seq<char>>) -> Option<
    FfiError,
> {
    if f.name is None {
        Option::Some(FfiError::UnsupportedShape)
    } else {
        match f.ty {
            TypeExprView::Other => Option::Some(FfiError::UnsupportedType),
            TypeExprView::Name(n) => {
                if spec_classify(n) == FieldWrapperType::Custom && !declared.contains(n) {
                    Option::Some(FfiError::UnsupportedType)
                } else {
                    Option::None
                }
            },
        }
    }
}

/// The first failing field's error, in declaration order.
pub open spec fn spec_first_field_error(
    fields: Seq<FieldDeclView>,
    declared: Seq<Seq<char>>,
) -> Option<FfiError>
    decreases fields.len(),
{
    if fields.len() == 0 {
        Option::None
    } else {
        match spec_field_error(fields.first(), declared) {
            Option::Some(e) => Option::Some(e),
            Option::None => spec_first_field_error(fields.drop_first(), declared),
        }
    }
}

proof fn lemma_first_error_skip(fields: Seq<FieldDeclView>, declared: Seq<Seq<char>>, i: int)
    requires
        0 <= i <= fields.len(),
        forall|k: int| 0 <= k < i ==> spec_field_error(fields[k], declared) is None,
    ensures
        spec_first_field_error(fields, declared) == spec_first_field_error(
            fields.skip(i),
            declared,
        ),
    decreases i,
{
    if i > 0 {
        assert(spec_field_error(fields.first(), declared) is None);
        assert forall|k: int|
            0 <= k < i - 1 implies spec_field_error(fields.drop_first()[k], declared) is None by {
            assert(fields.drop_first()[k] == fields[k + 1]);
        }
        lemma_first_error_skip(fields.drop_first(), declared, i - 1);
        assert(fields.drop_first().skip(i - 1) =~= fields.skip(i));
    } else {
        assert(fields.skip(0) =~= fields);
    }
}

/// The schema field a declaration field resolves to.
pub open spec fn spec_field_wrapper(f: FieldDeclView, class_name: Seq<char>) -> FieldWrapperView {
    let fname = f.name->Some_0;
    let n = f.ty->Name_0;
    let attrs = spec_field_attributes(f.annotations);
    FieldWrapperView {
        field_name: fname,
        field_type: n,
        wrapper_type: spec_classify(n),
        getter: spec_generate_getter(attrs, class_name, fname, f.is_public),
        setter: spec_generate_setter(attrs, class_name, fname, f.is_public),
    }
}

/// All schema fields, in declaration order.
pub open spec fn spec_fields_wrappers(
    fields: Seq<FieldDeclView>,
    class_name: Seq<char>,
) -> Seq<FieldWrapperView> {
    Seq::new(fields.len(), |i: int| spec_field_wrapper(fields[i], class_name))
}

/// The constructor allocated when the capability list derives `Default`.
pub open spec fn spec_default_constructor(
    derives: Seq<Seq<char>>,
    class_name: Seq<char>,
) -> Option<DefaultConstructorView> {
    if derives.contains("Default"@) {
        Option::Some(
            DefaultConstructorView {
                constructor_name: class_name + "__default"@,
                extern_fn_name: spec_default_symbol(class_name),
            },
        )
    } else {
        Option::None
    }
}

pub fn default_constructor(derives: &Vec<String>, class_name: &str) -> (r: Option<
    DefaultConstructor,
>)
    ensures
        r.deep_view() == spec_default_constructor(derives.deep_view(), class_name@),
{
    if names_contain(derives, "Default") {
        let mut name: String = class_name.to_owned();
        name.append("__default");
        Option::Some(
            DefaultConstructor {
                constructor_name: name,
                extern_fn_name: default_symbol(class_name),
            },
        )
    } else {
        Option::None
    }
}

/// The schema a struct declaration builds to.
pub open spec fn spec_struct_wrapper(d: StructDeclView) -> StructWrapperView {
    StructWrapperView {
        name: d.name,
        fields: spec_fields_wrappers(d.fields, d.name),
        default_constructor: spec_default_constructor(d.derives, d.name),
        drop_ext_fn_name: spec_drop_symbol(d.name),
        clone_ext_fn_name: spec_clone_symbol(d.name),
        original_definition: d.original_definition,
    }
}

/// The whole wrapper a struct declaration builds to.
pub open spec fn spec_translate_struct(d: StructDeclView) -> WrapperView {
    WrapperView {
        original_definition: d.original_definition,
        parsed: ParsedWrapperView::Struct(spec_struct_wrapper(d)),
    }
}

/// The symbols one schema field claims: its getter's, then its setter's.
pub open spec fn spec_one_field_symbols(f: FieldWrapperView) -> Seq<Seq<char>> {
    (match f.getter {
        Option::Some(g) => seq![g.extern_fn_name],
        Option::None => Seq::<Seq<char>>::empty(),
    }) + (match f.setter {
        Option::Some(s) => seq![s.extern_fn_name],
        Option::None => Seq::<Seq<char>>::empty(),
    })
}

/// The accessor symbols of all fields, in declaration order.
pub open spec fn spec_accessor_symbols(fields: Seq<FieldWrapperView>) -> Seq<Seq<char>>
    decreases fields.len(),
{
    if fields.len() == 0 {
        Seq::<Seq<char>>::empty()
    } else {
        spec_accessor_symbols(fields.drop_last()) + spec_one_field_symbols(fields.last())
    }
}

/// Every symbol a struct schema claims: accessors, then the optional
/// constructor, then destructor and clone.
pub open spec fn spec_struct_symbols(s: StructWrapperView) -> Seq<Seq<char>> {
    spec_accessor_symbols(s.fields) + (match s.default_constructor {
        Option::Some(c) => seq![c.extern_fn_name],
        Option::None => Seq::<Seq<char>>::empty(),
    }) + seq![s.drop_ext_fn_name, s.clone_ext_fn_name]
}

/// Whether building succeeds: every field is valid and the claimed symbols
/// are collision-free against the table.
pub open spec fn spec_struct_ok(
    d: StructDeclView,
    declared: Seq<Seq<char>>,
    table: Seq<Seq<char>>,
) -> bool {
    spec_first_field_error(d.fields, declared) is None && spec_claim_ok(
        table,
        spec_struct_symbols(spec_struct_wrapper(d)),
    )
}

/// The error a failing build reports: the first failing field's, else the
/// collision.
pub open spec fn spec_struct_error(d: StructDeclView, declared: Seq<Seq<char>>) -> FfiError {
    match spec_first_field_error(d.fields, declared) {
        Option::Some(e) => e,
        Option::None => FfiError::NameCollision,
    }
}

/// Validates a struct declaration into its schema, claiming its symbols and
/// registering its name; fails closed with the session unchanged.
pub fn translate_struct(d: &StructDecl, session: &mut Session) -> (r: Result<Wrapper, FfiError>)
    requires
        old(session).wf(),
    ensures
        final(session).wf(),
        final(session).rust_base_done() == old(session).rust_base_done(),
        final(session).swift_bootstrap_done() == old(session).swift_bootstrap_done(),
        final(session).appended() == old(session).appended(),
        final(session).package() == old(session).package(),
        r is Ok <==> spec_struct_ok(d@, old(session).declared(), old(session).symbols()),
        match r {
            Result::Ok(w) => w@ == spec_translate_struct(d@) && final(session).symbols() == old(session).symbols() + spec_struct_symbols(spec_struct_wrapper(d@)) && final(session).declared() == old(session).declared().push(d@.name),
            Result::Err(e) => e == spec_struct_error(d@, old(session).declared()) && final(session).symbols() == old(session).symbols() && final(session).declared() == old(session).declared(),
        },
{
    let ghost dv = d@;
    let ghost declared = old(session).declared();
    let class_name = d.name.as_str();
    let mut fields: Vec<FieldWrapper> = Vec::new();
    let mut i: usize = 0;
    while i < d.fields.len()
        invariant
            0 <= i <= d.fields.len(),
            dv == d@,
            dv.fields.len() == d.fields.len(),
            *session == *old(session),
            old(session).wf(),
            declared == old(session).declared(),
            class_name@ == dv.name,
            forall|k: int| 0 <= k < i ==> spec_field_error(dv.fields[k], declared) is None,
            fields.deep_view().len() == i,
            forall|k: int|
                0 <= k < i ==> fields.deep_view()[k] == spec_field_wrapper(
                    dv.fields[k],
                    dv.name,
                ),
        decreases d.fields.len() - i,
    {
        let f = &d.fields[i];
        proof {
            assert(dv.fields[i as int] == d.fields@[i as int]@);
        }
        let fname = match &f.name {
            Option::Some(n) => n,
            Option::None => {
                proof {
                    lemma_first_error_skip(dv.fields, declared, i as int);
                    assert(dv.fields.skip(i as int).first() == dv.fields[i as int]);
                    assert(spec_first_field_error(dv.fields, declared) == Option::Some(
                        FfiError::UnsupportedShape,
                    ));
                }
                return Result::Err(FfiError::UnsupportedShape);
            },
        };
        let tyname = match &f.ty {
            TypeExpr::Name(n) => n,
            TypeExpr::Other => {
                proof {
                    lemma_first_error_skip(dv.fields, declared, i as int);
                    assert(dv.fields.skip(i as int).first() == dv.fields[i as int]);
                    assert(spec_first_field_error(dv.fields, declared) == Option::Some(
                        FfiError::UnsupportedType,
                    ));
                }
                return Result::Err(FfiError::UnsupportedType);
            },
        };
        let kind = classify(tyname.as_str());
        let is_custom = match kind {
            FieldWrapperType::Custom => true,
            _ => false,
        };
        if is_custom && !session.is_declared(tyname.as_str()) {
            proof {
                lemma_first_error_skip(dv.fields, declared, i as int);
                assert(dv.fields.skip(i as int).first() == dv.fields[i as int]);
                assert(spec_first_field_error(dv.fields, declared) == Option::Some(
                    FfiError::UnsupportedType,
                ));
            }
            return Result::Err(FfiError::UnsupportedType);
        }
        let attrs = extract_field_attributes(&f.annotations);
        let getter = generate_getter(&attrs, class_name, fname.as_str(), f.is_public);
        let setter = generate_setter(&attrs, class_name, fname.as_str(), f.is_public);
        let fw = FieldWrapper {
            field_name: fname.clone(),
            field_type: tyname.clone(),
            wrapper_type: kind,
            getter,
            setter,
        };
        proof {
            assert(fw@ == spec_field_wrapper(dv.fields[i as int], dv.name));
        }
        let ghost pre_fields = fields.deep_view();
        fields.push(fw);
        proof {
            assert(fields.deep_view() =~= pre_fields.push(
                spec_field_wrapper(dv.fields[i as int], dv.name),
            ));
        }
        i = i + 1;
    }
    proof {
        lemma_first_error_skip(dv.fields, declared, dv.fields.len() as int);
        assert(dv.fields.skip(dv.fields.len() as int) =~= Seq::<FieldDeclView>::empty());
        assert(spec_first_field_error(dv.fields, declared) is None);
        assert(fields.deep_view() =~= spec_fields_wrappers(dv.fields, dv.name));
    }
    let dflt = default_constructor(&d.derives, class_name);
    let sw = StructWrapper {
        name: d.name.clone(),
        fields,
        default_constructor: dflt,
        drop_ext_fn_name: drop_symbol(class_name),
        clone_ext_fn_name: clone_symbol(class_name),
        original_definition: d.original_definition.clone(),
    };
    proof {
        assert(sw@ == spec_struct_wrapper(dv));
    }
    let mut syms: Vec<String> = Vec::new();
    let ghost fv = sw.fields.deep_view();
    let mut j: usize = 0;
    while j < sw.fields.len()
        invariant
            0 <= j <= sw.fields.len(),
            fv == sw.fields.deep_view(),
            fv.len() == sw.fields.len(),
            syms.deep_view() == spec_accessor_symbols(fv.take(j as int)),
        decreases sw.fields.len() - j,
    {
        let f = &sw.fields[j];
        proof {
            assert(fv[j as int] == sw.fields@[j as int]@);
            assert(fv.take(j + 1).drop_last() =~= fv.take(j as int));
            assert(fv.take(j + 1).last() == fv[j as int]);
        }
        let ghost before = syms.deep_view();
        match &f.getter {
            Option::Some(g) => {
                syms.push(g.extern_fn_name.clone());
            },
            Option::None => {},
        }
        let ghost mid = syms.deep_view();
        proof {
            assert(mid =~= before + (match fv[j as int].getter {
                Option::Some(g) => seq![g.extern_fn_name],
                Option::None => Seq::<Seq<char>>::empty(),
            }));
        }
        match &f.setter {
            Option::Some(s) => {
                syms.push(s.extern_fn_name.clone());
            },
            Option::None => {},
        }
        proof {
            assert(syms.deep_view() =~= mid + (match fv[j as int].setter {
                Option::Some(s) => seq![s.extern_fn_name],
                Option::None => Seq::<Seq<char>>::empty(),
            }));
            assert(syms.deep_view() =~= spec_accessor_symbols(fv.take(j + 1)));
        }
        j = j + 1;
    }
    proof {
        assert(fv.take(sw.fields.len() as int) =~= fv);
    }
    let ghost acc_syms = syms.deep_view();
    match &sw.default_constructor {
        Option::Some(c) => {
            syms.push(c.extern_fn_name.clone());
        },
        Option::None => {},
    }
    let ghost with_ctor = syms.deep_view();
    proof {
        assert(with_ctor =~= acc_syms + (match sw@.default_constructor {
            Option::Some(c) => seq![c.extern_fn_name],
            Option::None => Seq::<Seq<char>>::empty(),
        }));
    }
    syms.push(sw.drop_ext_fn_name.clone());
    syms.push(sw.clone_ext_fn_name.clone());
    proof {
        assert(syms.deep_view() =~= with_ctor + seq![
            sw@.drop_ext_fn_name,
            sw@.clone_ext_fn_name,
        ]);
        assert(syms.deep_view() =~= spec_struct_symbols(sw@));
    }
    if session.claim_symbols(&syms) {
        session.declare_type(class_name);
        Result::Ok(
            Wrapper {
                original_definition: d.original_definition.clone(),
                parsed: ParsedWrapper::Struct(sw),
            },
        )
    } else {
        Result::Err(FfiError::NameCollision)
    }
}

/// A field annotated `skip` resolves no getter and no setter, regardless of
/// its visibility and of any other annotation, so no accessor is ever
/// generated for it: its native shim text, and its method, extern and
/// property texts in both backends, are all empty.
pub proof fn lemma_skip_suppresses_accessors(f: FieldDeclView, class_name: Seq<char>)
    requires
        spec_field_attributes(f.annotations).skip_attr,
    ensures
        spec_field_wrapper(f, class_name).getter is None,
        spec_field_wrapper(f, class_name).setter is None,
        crate::wrapper::struct_wrapper::spec_field_shim(spec_field_wrapper(f, class_name), class_name)
            == Seq::<char>::empty(),
        crate::wrapper::cpp::class_definition::spec_field_methods(spec_field_wrapper(f, class_name))
            == Seq::<char>::empty(),
        crate::wrapper::cpp::class_definition::spec_field_externs(spec_field_wrapper(f, class_name))
            == Seq::<char>::empty(),
        crate::wrapper::swift::class_definition::spec_field_externs(spec_field_wrapper(f, class_name))
            == Seq::<char>::empty(),
        crate::wrapper::swift::class_definition::spec_property(spec_field_wrapper(f, class_name))
            == Seq::<char>::empty(),
{
    let w = spec_field_wrapper(f, class_name);
    assert(crate::wrapper::struct_wrapper::spec_field_shim(w, class_name) =~= Seq::<
        char,
    >::empty());
    assert(crate::wrapper::cpp::class_definition::spec_field_methods(w) =~= Seq::<char>::empty());
    assert(crate::wrapper::cpp::class_definition::spec_field_externs(w) =~= Seq::<char>::empty());
    assert(crate::wrapper::swift::class_definition::spec_field_externs(w) =~= Seq::<
        char,
    >::empty());
}

/// A field with no annotations at all resolves a getter and a setter
/// exactly when it is declared publicly visible.
pub proof fn lemma_unannotated_field_accessors(f: FieldDeclView, class_name: Seq<char>)
    requires
        f.annotations == Seq::<Seq<char>>::empty(),
    ensures
        spec_field_wrapper(f, class_name).getter is Some <==> f.is_public,
        spec_field_wrapper(f, class_name).setter is Some <==> f.is_public,
{
    assert(!f.annotations.contains("getter"@));
    assert(!f.annotations.contains("setter"@));
    assert(!f.annotations.contains("skip"@));
}

/// A struct with zero fields and no default-construction capability claims
/// exactly the drop and clone entry points: its accessor set is empty and no
/// constructor exists.
pub proof fn lemma_minimal_struct_surface(d: StructDeclView)
    requires
        d.fields.len() == 0,
        !d.derives.contains("Default"@),
    ensures
        spec_struct_wrapper(d).fields.len() == 0,
        spec_struct_wrapper(d).default_constructor is None,
        spec_struct_symbols(spec_struct_wrapper(d)) == seq![
            spec_drop_symbol(d.name),
            spec_clone_symbol(d.name),
        ],
{
    let s = spec_struct_wrapper(d);
    assert(spec_accessor_symbols(s.fields) == Seq::<Seq<char>>::empty());
    assert(spec_struct_symbols(s) =~= seq![spec_drop_symbol(d.name), spec_clone_symbol(d.name)]);
}

} // verus!
