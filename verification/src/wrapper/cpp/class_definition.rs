//! The manual-memory backend's class text for one struct schema.
//!
//! The emitted class holds one raw handle and offers: a raw-handle
//! constructor, a copy-constructor through the clone entry point, a
//! move-constructor that steals the pointer and nulls the source, an
//! optional default constructor, a guarded destructor, and one method per
//! resolved getter or setter.
use crate::naming::names_contain;
use crate::wrapper::struct_wrapper::{
    DefaultConstructorView, FieldWrapper, FieldWrapperType, FieldWrapperView, Getter, GetterView,
    Setter, SetterView, StructWrapper, StructWrapperView,
};
use vstd::prelude::*;

verus! {

/// The include line pulled in for an opaque field's own class header.
pub open spec fn spec_custom_type_include(field_type: Seq<char>) -> Seq<char> {
    "#include \""@ + field_type + ".h\"\n"@
}

pub fn custom_type_include(field_type: &str) -> (r: String)
    ensures
        r@ == spec_custom_type_include(field_type@),
{
    let mut r = String::from_str("#include \"");
    r.append(field_type);
    r.append(".h\"\n");
    r
}

/// A getter method: primitive and opaque fields convert the entry point's
/// result through the field type's own constructor.
pub open spec fn spec_value_getter_method(g: GetterView, field_type: Seq<char>) -> Seq<char> {
    "\n    "@ + field_type + " "@ + g.name + "() {\n        return "@ + field_type + "("@
        + g.extern_fn_name + "(this->self));\n    }"@
}

fn value_getter_method(g_name: &str, g_sym: &str, field_type: &str) -> (r: String)
    ensures
        r@ == spec_value_getter_method(
            GetterView { name: g_name@, extern_fn_name: g_sym@ },
            field_type@,
        ),
{
    let mut r = String::from_str("\n    ");
    r.append(field_type);
    r.append(" ");
    r.append(g_name);
    r.append("() {\n        return ");
    r.append(field_type);
    r.append("(");
    r.append(g_sym);
    r.append("(this->self));\n    }");
    r
}

/// A primitive setter method: passes the value through unchanged.
pub open spec fn spec_primitive_setter_method(s: SetterView, field_type: Seq<char>) -> Seq<
    char,
> {
    "\n    void "@ + s.name + "("@ + field_type + " value) {\n        "@ + s.extern_fn_name
        + "(this->self, value);\n    }"@
}

fn primitive_setter_method(s: &Setter, field_type: &str) -> (r: String)
    ensures
        r@ == spec_primitive_setter_method(s@, field_type@),
{
    let mut r = String::from_str("\n    void ");
    r.append(s.name.as_str());
    r.append("(");
    r.append(field_type);
    r.append(" value) {\n        ");
    r.append(s.extern_fn_name.as_str());
    r.append("(this->self, value);\n    }");
    r
}

/// A text getter method: copies the returned descriptor into an owned
/// string, then destroys the descriptor before returning.
pub open spec fn spec_string_getter_method(g: GetterView) -> Seq<char> {
    "\n    std::string "@ + g.name + "() {\n        void* slice_ptr = "@ + g.extern_fn_name
        + "(this->self);\n        char* ptr = __hiFfi__$slice_ptr(slice_ptr);\n        auto len = __hiFfi__$slice_len(slice_ptr);\n        auto result = std::string(ptr, len);\n        __hiFfi__$slice_drop(slice_ptr);\n        return result;\n    }"@
}

fn string_getter_method(g: &Getter) -> (r: String)
    ensures
        r@ == spec_string_getter_method(g@),
{
    let mut r = String::from_str("\n    std::string ");
    r.append(g.name.as_str());
    r.append("() {\n        void* slice_ptr = ");
    r.append(g.extern_fn_name.as_str());
    r.append(
        "(this->self);\n        char* ptr = __hiFfi__$slice_ptr(slice_ptr);\n        auto len = __hiFfi__$slice_len(slice_ptr);\n        auto result = std::string(ptr, len);\n        __hiFfi__$slice_drop(slice_ptr);\n        return result;\n    }",
    );
    r
}

/// A text setter method: hands the string's bytes and length to the entry
/// point, which copies them at once; the caller keeps its buffer.
pub open spec fn spec_string_setter_method(s: SetterView) -> Seq<char> {
    "\n    void "@ + s.name
        + "(std::string&& value) {\n        auto ptr = value.data();\n        auto len = value.size();\n        "@
        + s.extern_fn_name + "(this->self, ptr, len);\n    }\n    \n    void "@ + s.name
        + "(std::string& value) {\n        this->"@ + s.name + "(std::move(value));\n    }"@
}

fn string_setter_method(s: &Setter) -> (r: String)
    ensures
        r@ == spec_string_setter_method(s@),
{
    let mut r = String::from_str("\n    void ");
    r.append(s.name.as_str());
    r.append(
        "(std::string&& value) {\n        auto ptr = value.data();\n        auto len = value.size();\n        ",
    );
    r.append(s.extern_fn_name.as_str());
    r.append("(this->self, ptr, len);\n    }\n    \n    void ");
    r.append(s.name.as_str());
    r.append("(std::string& value) {\n        this->");
    r.append(s.name.as_str());
    r.append("(std::move(value));\n    }");
    r
}

/// An opaque setter method: hands the argument's raw handle over; the native
/// side clones it, so the argument stays owned by the caller.
pub open spec fn spec_custom_setter_method(s: SetterView, field_type: Seq<char>) -> Seq<char> {
    "\n    void "@ + s.name + "("@ + field_type + "& value) {\n        "@ + s.extern_fn_name
        + "(this->self, value.self_ptr()); // Rust side makes clone\n    }"@
}

fn custom_setter_method(s: &Setter, field_type: &str) -> (r: String)
    ensures
        r@ == spec_custom_setter_method(s@, field_type@),
{
    let mut r = String::from_str("\n    void ");
    r.append(s.name.as_str());
    r.append("(");
    r.append(field_type);
    r.append("& value) {\n        ");
    r.append(s.extern_fn_name.as_str());
    r.append("(this->self, value.self_ptr()); // Rust side makes clone\n    }");
    r
}

/// The method text of one field: getter then setter, each only where
/// resolved.
pub open spec fn spec_field_methods(f: FieldWrapperView) -> Seq<char> {
    (match f.getter {
        Option::Some(g) => match f.wrapper_type {
            FieldWrapperType::Primitive => spec_value_getter_method(g, f.field_type),
            FieldWrapperType::String => spec_string_getter_method(g),
            FieldWrapperType::Custom => spec_value_getter_method(g, f.field_type),
        },
        Option::None => Seq::<char>::empty(),
    }) + (match f.setter {
        Option::Some(s) => match f.wrapper_type {
            FieldWrapperType::Primitive => spec_primitive_setter_method(s, f.field_type),
            FieldWrapperType::String => spec_string_setter_method(s),
            FieldWrapperType::Custom => spec_custom_setter_method(s, f.field_type),
        },
        Option::None => Seq::<char>::empty(),
    })
}

/// The extern declaration for a getter's entry point.
pub open spec fn spec_getter_extern(g: GetterView, f: FieldWrapperView) -> Seq<char> {
    match f.wrapper_type {
        FieldWrapperType::Primitive => "    "@ + f.field_type + " "@ + g.extern_fn_name
            + "(void*);\n"@,
        FieldWrapperType::String => "    void* "@ + g.extern_fn_name + "(void*);\n"@,
        FieldWrapperType::Custom => "    void* "@ + g.extern_fn_name + "(void*);\n"@,
    }
}

/// The extern declaration for a setter's entry point.
pub open spec fn spec_setter_extern(s: SetterView, f: FieldWrapperView) -> Seq<char> {
    match f.wrapper_type {
        FieldWrapperType::Primitive => "    void "@ + s.extern_fn_name + "(void*, "@
            + f.field_type + ");\n"@,
        FieldWrapperType::String => "    void "@ + s.extern_fn_name
            + "(void*, char*, size_t);\n"@,
        FieldWrapperType::Custom => "    void "@ + s.extern_fn_name + "(void*, void*);\n"@,
    }
}

/// The extern declarations of one field, getter then setter.
pub open spec fn spec_field_externs(f: FieldWrapperView) -> Seq<char> {
    (match f.getter {
        Option::Some(g) => spec_getter_extern(g, f),
        Option::None => Seq::<char>::empty(),
    }) + (match f.setter {
        Option::Some(s) => spec_setter_extern(s, f),
        Option::None => Seq::<char>::empty(),
    })
}

/// The accessor method text of all fields, in declaration order.
pub open spec fn spec_methods(fields: Seq<FieldWrapperView>) -> Seq<char>
    decreases fields.len(),
{
    if fields.len() == 0 {
        Seq::<char>::empty()
    } else {
        spec_methods(fields.drop_last()) + spec_field_methods(fields.last())
    }
}

/// The accessor extern declarations of all fields, in declaration order.
pub open spec fn spec_externs(fields: Seq<FieldWrapperView>) -> Seq<char>
    decreases fields.len(),
{
    if fields.len() == 0 {
        Seq::<char>::empty()
    } else {
        spec_externs(fields.drop_last()) + spec_field_externs(fields.last())
    }
}

/// Whether a field pulls in an include: it is opaque and has at least one
/// accessor.
pub open spec fn spec_field_needs_include(f: FieldWrapperView) -> bool {
    f.wrapper_type == FieldWrapperType::Custom && (f.getter is Some || f.setter is Some)
}

/// The opaque field types that need an include, in first-occurrence order,
/// each once.
pub open spec fn spec_include_types(fields: Seq<FieldWrapperView>) -> Seq<Seq<char>>
    decreases fields.len(),
{
    if fields.len() == 0 {
        Seq::<Seq<char>>::empty()
    } else {
        let prev = spec_include_types(fields.drop_last());
        let f = fields.last();
        if spec_field_needs_include(f) && !prev.contains(f.field_type) {
            prev.push(f.field_type)
        } else {
            prev
        }
    }
}

/// The include lines for a list of opaque types.
pub open spec fn spec_includes_text(tys: Seq<Seq<char>>) -> Seq<char>
    decreases tys.len(),
{
    if tys.len() == 0 {
        Seq::<char>::empty()
    } else {
        spec_includes_text(tys.drop_last()) + spec_custom_type_include(tys.last())
    }
}

struct FoldedFields {
    methods: String,
    externs: String,
    includes: String,
}

fn field_methods(f: &FieldWrapper) -> (r: String)
    ensures
        r@ == spec_field_methods(f@),
{
    let mut r = match &f.getter {
        Option::Some(g) => match f.wrapper_type {
            FieldWrapperType::Primitive => value_getter_method(
                g.name.as_str(),
                g.extern_fn_name.as_str(),
                f.field_type.as_str(),
            ),
            FieldWrapperType::String => string_getter_method(g),
            FieldWrapperType::Custom => value_getter_method(
                g.name.as_str(),
                g.extern_fn_name.as_str(),
                f.field_type.as_str(),
            ),
        },
        Option::None => String::new(),
    };
    let setter_text = match &f.setter {
        Option::Some(s) => match f.wrapper_type {
            FieldWrapperType::Primitive => primitive_setter_method(s, f.field_type.as_str()),
            FieldWrapperType::String => string_setter_method(s),
            FieldWrapperType::Custom => custom_setter_method(s, f.field_type.as_str()),
        },
        Option::None => String::new(),
    };
    r.append(setter_text.as_str());
    r
}

fn field_externs(f: &FieldWrapper) -> (r: String)
    ensures
        r@ == spec_field_externs(f@),
{
    let mut r = match &f.getter {
        Option::Some(g) => match f.wrapper_type {
            FieldWrapperType::Primitive => {
                let mut t = String::from_str("    ");
                t.append(f.field_type.as_str());
                t.append(" ");
                t.append(g.extern_fn_name.as_str());
                t.append("(void*);\n");
                t
            },
            FieldWrapperType::String => {
                let mut t = String::from_str("    void* ");
                t.append(g.extern_fn_name.as_str());
                t.append("(void*);\n");
                t
            },
            FieldWrapperType::Custom => {
                let mut t = String::from_str("    void* ");
                t.append(g.extern_fn_name.as_str());
                t.append("(void*);\n");
                t
            },
        },
        Option::None => String::new(),
    };
    let setter_text = match &f.setter {
        Option::Some(s) => match f.wrapper_type {
            FieldWrapperType::Primitive => {
                let mut t = String::from_str("    void ");
                t.append(s.extern_fn_name.as_str());
                t.append("(void*, ");
                t.append(f.field_type.as_str());
                t.append(");\n");
                t
            },
            FieldWrapperType::String => {
                let mut t = String::from_str("    void ");
                t.append(s.extern_fn_name.as_str());
                t.append("(void*, char*, size_t);\n");
                t
            },
            FieldWrapperType::Custom => {
                let mut t = String::from_str("    void ");
                t.append(s.extern_fn_name.as_str());
                t.append("(void*, void*);\n");
                t
            },
        },
        Option::None => String::new(),
    };
    r.append(setter_text.as_str());
    r
}

/// Folds all fields into method text, extern declarations, and deduplicated
/// include lines, each in declaration order.
fn map_fields(fields: &Vec<FieldWrapper>) -> (r: FoldedFields)
    ensures
        r.methods@ == spec_methods(fields.deep_view()),
        r.externs@ == spec_externs(fields.deep_view()),
        r.includes@ == spec_includes_text(spec_include_types(fields.deep_view())),
{
    let ghost dv = fields.deep_view();
    let mut methods = String::new();
    let mut externs = String::new();
    let mut includes = String::new();
    let mut seen: Vec<String> = Vec::new();
    let mut i: usize = 0;
    while i < fields.len()
        invariant
            0 <= i <= fields.len(),
            dv == fields.deep_view(),
            dv.len() == fields.len(),
            methods@ == spec_methods(dv.take(i as int)),
            externs@ == spec_externs(dv.take(i as int)),
            seen.deep_view() == spec_include_types(dv.take(i as int)),
            includes@ == spec_includes_text(spec_include_types(dv.take(i as int))),
        decreases fields.len() - i,
    {
        let f = &fields[i];
        proof {
            assert(dv[i as int] == fields@[i as int]@);
            assert(dv.take(i + 1).drop_last() =~= dv.take(i as int));
            assert(dv.take(i + 1).last() == dv[i as int]);
        }
        let m = field_methods(f);
        methods.append(m.as_str());
        let e = field_externs(f);
        externs.append(e.as_str());
        let needs = match f.wrapper_type {
            FieldWrapperType::Custom => f.getter.is_some() || f.setter.is_some(),
            _ => false,
        };
        if needs && !names_contain(&seen, f.field_type.as_str()) {
            seen.push(f.field_type.clone());
            let inc = custom_type_include(f.field_type.as_str());
            includes.append(inc.as_str());
            proof {
                let prev = spec_include_types(dv.take(i as int));
                let t = dv[i as int].field_type;
                assert(seen.deep_view() =~= prev.push(t));
                assert(spec_include_types(dv.take(i + 1)) == prev.push(t));
                assert(prev.push(t).drop_last() =~= prev);
                assert(prev.push(t).last() == t);
                assert(spec_includes_text(prev.push(t)) == spec_includes_text(prev)
                    + spec_custom_type_include(t));
            }
        }
        i = i + 1;
    }
    proof {
        assert(dv.take(fields.len() as int) =~= dv);
    }
    FoldedFields { methods, externs, includes }
}

/// The raw-handle constructor: adopts a pointer produced by the native side.
pub open spec fn spec_pointer_constructor_definition(class_name: Seq<char>) -> Seq<char> {
    "    "@ + class_name + "(void* self) : self(self) {}"@
}

pub fn pointer_constructor_definition(class_name: &str) -> (r: String)
    ensures
        r@ == spec_pointer_constructor_definition(class_name@),
{
    let mut r = String::from_str("    ");
    r.append(class_name);
    r.append("(void* self) : self(self) {}");
    r
}

/// The copy-constructor: duplicates the other wrapper's value through the
/// clone entry point, so each wrapper owns its own handle.
pub open spec fn spec_copy_constructor_definition(
    class_name: Seq<char>,
    clone_sym: Seq<char>,
) -> Seq<char> {
    "\n    "@ + class_name + "(const "@ + class_name + "& other) {\n        this->self = "@
        + clone_sym + "(other.self);\n    }"@
}

fn copy_constructor_definition(class_name: &str, clone_sym: &str) -> (r: String)
    ensures
        r@ == spec_copy_constructor_definition(class_name@, clone_sym@),
{
    let mut r = String::from_str("\n    ");
    r.append(class_name);
    r.append("(const ");
    r.append(class_name);
    r.append("& other) {\n        this->self = ");
    r.append(clone_sym);
    r.append("(other.self);\n    }");
    r
}

/// The move-constructor: steals the pointer and nulls the source, so the
/// moved-from wrapper's destructor has nothing to free.
pub open spec fn spec_move_constructor_definition(class_name: Seq<char>) -> Seq<char> {
    "\n    "@ + class_name + "("@ + class_name
        + "&& other) {\n        this->self = other.self;\n        other.self = nullptr;\n    }"@
}

fn move_constructor_definition(class_name: &str) -> (r: String)
    ensures
        r@ == spec_move_constructor_definition(class_name@),
{
    let mut r = String::from_str("\n    ");
    r.append(class_name);
    r.append("(");
    r.append(class_name);
    r.append("&& other) {\n        this->self = other.self;\n        other.self = nullptr;\n    }");
    r
}

/// The guarded destructor: calls the drop entry point only on a non-null
/// handle, so destroying a moved-from wrapper is a no-op.
pub open spec fn spec_destructor_definition(
    class_name: Seq<char>,
    drop_sym: Seq<char>,
) -> Seq<char> {
    "\n    virtual ~"@ + class_name + "() {\n        if (this->self != nullptr)\n            "@
        + drop_sym + "(this->self);\n    }"@
}

fn destructor_definition(class_name: &str, drop_sym: &str) -> (r: String)
    ensures
        r@ == spec_destructor_definition(class_name@, drop_sym@),
{
    let mut r = String::from_str("\n    virtual ~");
    r.append(class_name);
    r.append("() {\n        if (this->self != nullptr)\n            ");
    r.append(drop_sym);
    r.append("(this->self);\n    }");
    r
}

/// The default constructor's definition and extern declaration; both empty
/// when the capability is absent.
pub open spec fn spec_default_constructor_definition(
    ctor: Option<DefaultConstructorView>,
    class_name: Seq<char>,
) -> Seq<char> {
    match ctor {
        Option::Some(c) => "\n    "@ + class_name + "() {\n        this->self = "@
            + c.extern_fn_name + "();\n    }"@,
        Option::None => Seq::<char>::empty(),
    }
}

pub open spec fn spec_default_constructor_extern(
    ctor: Option<DefaultConstructorView>,
) -> Seq<char> {
    match ctor {
        Option::Some(c) => "    void* "@ + c.extern_fn_name + "();"@,
        Option::None => Seq::<char>::empty(),
    }
}

fn default_constructor_definition(
    ctor: &Option<crate::wrapper::struct_wrapper::DefaultConstructor>,
    class_name: &str,
) -> (r: String)
    ensures
        r@ == spec_default_constructor_definition(ctor.deep_view(), class_name@),
{
    match ctor {
        Option::Some(c) => {
            let mut r = String::from_str("\n    ");
            r.append(class_name);
            r.append("() {\n        this->self = ");
            r.append(c.extern_fn_name.as_str());
            r.append("();\n    }");
            r
        },
        Option::None => String::new(),
    }
}

fn default_constructor_extern(
    ctor: &Option<crate::wrapper::struct_wrapper::DefaultConstructor>,
) -> (r: String)
    ensures
        r@ == spec_default_constructor_extern(ctor.deep_view()),
{
    match ctor {
        Option::Some(c) => {
            let mut r = String::from_str("    void* ");
            r.append(c.extern_fn_name.as_str());
            r.append("();");
            r
        },
        Option::None => String::new(),
    }
}

/// The destructor's extern declaration.
pub open spec fn spec_destructor_extern(drop_sym: Seq<char>) -> Seq<char> {
    "    void "@ + drop_sym + "(void*);"@
}

/// The clone entry point's extern declaration.
pub open spec fn spec_clone_extern(clone_sym: Seq<char>) -> Seq<char> {
    "    void* "@ + clone_sym + "(void*);\n"@
}

/// Everything the class header holds ahead of the destructor: include
/// guard, includes, the extern block naming every entry point the class
/// calls, and the constructors.
pub open spec fn spec_class_def_before_destructor(s: StructWrapperView) -> Seq<char> {
    "\n#ifndef "@ + s.name + "__def\n#define "@ + s.name + "__def\n\n#include \"base.h\"\n"@
        + spec_includes_text(spec_include_types(s.fields)) + "\n\nextern \"C\" {\n"@
        + spec_externs(s.fields) + "\n"@ + spec_default_constructor_extern(s.default_constructor)
        + "\n"@ + spec_destructor_extern(s.drop_ext_fn_name) + "\n"@ + spec_clone_extern(
        s.clone_ext_fn_name,
    ) + "\n}\n\nclass "@ + s.name + " {\n    void* self = nullptr;\npublic:\n"@
        + spec_pointer_constructor_definition(s.name) + "\n"@ + spec_copy_constructor_definition(
        s.name,
        s.clone_ext_fn_name,
    ) + "\n"@ + spec_move_constructor_definition(s.name) + "\n"@
        + spec_default_constructor_definition(s.default_constructor, s.name) + "\n"@
}

/// Everything the class header holds after the destructor: the accessor
/// methods and the raw-handle helpers.
pub open spec fn spec_class_def_after_destructor(s: StructWrapperView) -> Seq<char> {
    "\n"@ + spec_methods(s.fields)
        + "\n\n    void* self_ptr() {\n        return self;\n    }\n    void set_self_ptr(void* ptr) {\n        self = ptr;\n    }\n};\n\n#endif\n"@
}

/// The whole class header of a struct: include guard, includes, the extern
/// block naming every entry point the class calls, and the class itself.
pub open spec fn spec_gen_class_definition(s: StructWrapperView) -> Seq<char> {
    spec_class_def_before_destructor(s) + spec_destructor_definition(s.name, s.drop_ext_fn_name)
        + spec_class_def_after_destructor(s)
}

/// Whether `needle` occurs contiguously inside `hay`.
pub open spec fn spec_contains_subseq(hay: Seq<char>, needle: Seq<char>) -> bool {
    exists|k: int|
        0 <= k && k + needle.len() <= hay.len() && #[trigger] hay.subrange(k, k + needle.len())
            == needle
}

/// A middle operand of a concatenation occurs contiguously in it.
proof fn lemma_contains_middle(a: Seq<char>, m: Seq<char>, b: Seq<char>)
    ensures
        spec_contains_subseq(a + m + b, m),
{
    let hay = a + m + b;
    let k = a.len() as int;
    assert forall|idx: int| 0 <= idx < m.len() implies hay.subrange(k, k + m.len())[idx]
        == m[idx] by {
        assert(hay[k + idx] == (a + m)[k + idx]);
        assert((a + m)[k + idx] == m[idx]);
    }
    assert(hay.subrange(k, k + m.len()) =~= m);
}

/// For every struct schema, the emitted class holds the guarded destructor:
/// the drop entry point runs only on a non-null handle, so destroying a
/// moved-from wrapper is a no-op, never a double free or a crash.
pub proof fn lemma_destructor_guarded(s: StructWrapperView)
    ensures
        spec_contains_subseq(
            spec_gen_class_definition(s),
            spec_destructor_definition(s.name, s.drop_ext_fn_name),
        ),
{
    lemma_contains_middle(
        spec_class_def_before_destructor(s),
        spec_destructor_definition(s.name, s.drop_ext_fn_name),
        spec_class_def_after_destructor(s),
    );
}

/// Emits the manual-memory backend's class header for a struct schema.
pub fn gen_class_definition(s: &StructWrapper) -> (r: String)
    ensures
        r@ == spec_gen_class_definition(s@),
{
    let folded = map_fields(&s.fields);
    let mut r = String::from_str("\n#ifndef ");
    r.append(s.name.as_str());
    r.append("__def\n#define ");
    r.append(s.name.as_str());
    r.append("__def\n\n#include \"base.h\"\n");
    r.append(folded.includes.as_str());
    r.append("\n\nextern \"C\" {\n");
    r.append(folded.externs.as_str());
    r.append("\n");
    let ctor_ext = default_constructor_extern(&s.default_constructor);
    r.append(ctor_ext.as_str());
    r.append("\n");
    r.append("    void ");
    r.append(s.drop_ext_fn_name.as_str());
    r.append("(void*);");
    r.append("\n");
    r.append("    void* ");
    r.append(s.clone_ext_fn_name.as_str());
    r.append("(void*);\n");
    r.append("\n}\n\nclass ");
    r.append(s.name.as_str());
    r.append(" {\n    void* self = nullptr;\npublic:\n");
    let ptr_ctor = pointer_constructor_definition(s.name.as_str());
    r.append(ptr_ctor.as_str());
    r.append("\n");
    let copy_ctor = copy_constructor_definition(s.name.as_str(), s.clone_ext_fn_name.as_str());
    r.append(copy_ctor.as_str());
    r.append("\n");
    let move_ctor = move_constructor_definition(s.name.as_str());
    r.append(move_ctor.as_str());
    r.append("\n");
    let dflt_ctor = default_constructor_definition(&s.default_constructor, s.name.as_str());
    r.append(dflt_ctor.as_str());
    r.append("\n");
    let dtor = destructor_definition(s.name.as_str(), s.drop_ext_fn_name.as_str());
    r.append(dtor.as_str());
    r.append("\n");
    r.append(folded.methods.as_str());
    r.append(
        "\n\n    void* self_ptr() {\n        return self;\n    }\n    void set_self_ptr(void* ptr) {\n        self = ptr;\n    }\n};\n\n#endif\n",
    );
    proof {
        assert(r@ =~= spec_gen_class_definition(s@));
    }
    r
}

} // verus!
