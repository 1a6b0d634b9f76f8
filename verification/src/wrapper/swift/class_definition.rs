//! The reference-counted backend's class text for one struct schema.
//!
//! The wrapper class extends the shared base holding one raw handle; its
//! deinitializer calls the drop entry point exactly once, and each resolved
//! accessor becomes a computed property.  An opaque getter wraps the cloned
//! handle the native side returns in the field type's own class; an opaque
//! setter hands the argument's raw handle over for the native side to
//! clone.
use crate::wrapper::struct_wrapper::{
    DefaultConstructor, DefaultConstructorView, FieldWrapper, FieldWrapperType, FieldWrapperView,
    Getter, GetterView, Setter, SetterView, StructWrapper, StructWrapperView,
};
use vstd::prelude::*;

verus! {

/// The C declaration of a getter entry point, as the shared header states
/// it.
pub open spec fn spec_getter_extern(g: GetterView, f: FieldWrapperView) -> Seq<char> {
    match f.wrapper_type {
        FieldWrapperType::Primitive => f.field_type + " "@ + g.extern_fn_name + "(void*);"@,
        FieldWrapperType::String => "void* "@ + g.extern_fn_name + "(void*);"@,
        FieldWrapperType::Custom => "void* "@ + g.extern_fn_name + "(void*);"@,
    }
}

/// The C declaration of a setter entry point.
pub open spec fn spec_setter_extern(s: SetterView, f: FieldWrapperView) -> Seq<char> {
    match f.wrapper_type {
        FieldWrapperType::Primitive => "void "@ + s.extern_fn_name + "(void*, "@ + f.field_type
            + ");"@,
        FieldWrapperType::String => "void "@ + s.extern_fn_name
            + "(void*, const char*, size_t);"@,
        FieldWrapperType::Custom => "void "@ + s.extern_fn_name + "(void*, void*);"@,
    }
}

/// The C declarations of one field, getter then setter, each on its own
/// line.
pub open spec fn spec_field_externs(f: FieldWrapperView) -> Seq<char> {
    (match f.getter {
        Option::Some(g) => "\n"@ + spec_getter_extern(g, f),
        Option::None => Seq::<char>::empty(),
    }) + (match f.setter {
        Option::Some(s) => "\n"@ + spec_setter_extern(s, f),
        Option::None => Seq::<char>::empty(),
    })
}

pub open spec fn spec_externs(fields: Seq<FieldWrapperView>) -> Seq<char>
    decreases fields.len(),
{
    if fields.len() == 0 {
        Seq::<char>::empty()
    } else {
        spec_externs(fields.drop_last()) + spec_field_externs(fields.last())
    }
}

/// The default constructor's C declaration, when the capability exists.
pub open spec fn spec_default_constructor_extern(
    ctor: Option<DefaultConstructorView>,
) -> Seq<char> {
    match ctor {
        Option::Some(c) => "\nvoid* "@ + c.extern_fn_name + "();\n"@,
        Option::None => Seq::<char>::empty(),
    }
}

/// The block this struct contributes to the shared C header: its destructor,
/// its accessor entry points, and its optional default constructor.
pub open spec fn spec_gen_class_header(s: StructWrapperView) -> Seq<char> {
    "\nvoid "@ + s.drop_ext_fn_name + "(void*);\n"@ + spec_externs(s.fields) + "\n"@
        + spec_default_constructor_extern(s.default_constructor) + "\n"@
}

fn field_externs(f: &FieldWrapper) -> (r: String)
    ensures
        r@ == spec_field_externs(f@),
{
    let mut r = match &f.getter {
        Option::Some(g) => match f.wrapper_type {
            FieldWrapperType::Primitive => {
                let mut t = String::from_str("\n");
                t.append(f.field_type.as_str());
                t.append(" ");
                t.append(g.extern_fn_name.as_str());
                t.append("(void*);");
                t
            },
            _ => {
                let mut t = String::from_str("\n");
                t.append("void* ");
                t.append(g.extern_fn_name.as_str());
                t.append("(void*);");
                t
            },
        },
        Option::None => String::new(),
    };
    let setter_text = match &f.setter {
        Option::Some(s) => match f.wrapper_type {
            FieldWrapperType::Primitive => {
                let mut t = String::from_str("\n");
                t.append("void ");
                t.append(s.extern_fn_name.as_str());
                t.append("(void*, ");
                t.append(f.field_type.as_str());
                t.append(");");
                t
            },
            FieldWrapperType::String => {
                let mut t = String::from_str("\n");
                t.append("void ");
                t.append(s.extern_fn_name.as_str());
                t.append("(void*, const char*, size_t);");
                t
            },
            FieldWrapperType::Custom => {
                let mut t = String::from_str("\n");
                t.append("void ");
                t.append(s.extern_fn_name.as_str());
                t.append("(void*, void*);");
                t
            },
        },
        Option::None => String::new(),
    };
    r.append(setter_text.as_str());
    proof {
        assert(r@ =~= spec_field_externs(f@));
    }
    r
}

/// Emits this struct's block of the shared C header.
pub fn gen_class_header(s: &StructWrapper) -> (r: String)
    ensures
        r@ == spec_gen_class_header(s@),
{
    let ghost dv = s.fields.deep_view();
    let mut r = String::from_str("\nvoid ");
    r.append(s.drop_ext_fn_name.as_str());
    r.append("(void*);\n");
    let mut externs = String::new();
    let mut i: usize = 0;
    while i < s.fields.len()
        invariant
            0 <= i <= s.fields.len(),
            dv == s.fields.deep_view(),
            dv.len() == s.fields.len(),
            externs@ == spec_externs(dv.take(i as int)),
        decreases s.fields.len() - i,
    {
        proof {
            assert(dv[i as int] == s.fields@[i as int]@);
            assert(dv.take(i + 1).drop_last() =~= dv.take(i as int));
            assert(dv.take(i + 1).last() == dv[i as int]);
        }
        let e = field_externs(&s.fields[i]);
        externs.append(e.as_str());
        i = i + 1;
    }
    proof {
        assert(dv.take(s.fields.len() as int) =~= dv);
    }
    r.append(externs.as_str());
    r.append("\n");
    let ctor_ext = match &s.default_constructor {
        Option::Some(c) => {
            let mut t = String::from_str("\nvoid* ");
            t.append(c.extern_fn_name.as_str());
            t.append("();\n");
            t
        },
        Option::None => String::new(),
    };
    r.append(ctor_ext.as_str());
    r.append("\n");
    r
}

/// A primitive property getter: returns the entry point's value directly.
pub open spec fn spec_primitive_getter(g: GetterView) -> Seq<char> {
    "\n        get {\n            return "@ + g.extern_fn_name + "(self.rawPtr())\n        }"@
}

/// A primitive property setter: passes the new value directly.
pub open spec fn spec_primitive_setter(s: SetterView) -> Seq<char> {
    "\n        set {\n            "@ + s.extern_fn_name + "(self.rawPtr(), newValue)\n        }"@
}

/// A text property getter: unwraps the returned descriptor into an owned
/// string, reading through the paired length, and destroys the descriptor
/// before returning.
pub open spec fn spec_string_getter(g: GetterView) -> Seq<char> {
    "\n        get {\n            let slice_ptr = "@ + g.extern_fn_name
        + "(self.rawPtr())\n            let c_str_ptr = __hiFfi__$slice_ptr(slice_ptr)\n            let c_str_len = __hiFfi__$slice_len(slice_ptr)\n            let typed_pointer = c_str_ptr!.assumingMemoryBound(to: UInt8.self)\n            let bytes: UnsafeBufferPointer<UInt8> = UnsafeBufferPointer(start: typed_pointer, count: Int(c_str_len))\n            let result = String(bytes: bytes, encoding: .utf8)!\n            __hiFfi__$slice_drop(slice_ptr)\n            return result\n        }"@
}

/// A text property setter: inside the buffer's scope it hands the bytes and
/// their count — without the terminator — to the entry point, which copies
/// them at once; the caller keeps its buffer.
pub open spec fn spec_string_setter(s: SetterView) -> Seq<char> {
    "\n        set {\n            newValue.utf8CString.withUnsafeBufferPointer({ ptr in\n                "@
        + s.extern_fn_name
        + "(self.rawPtr(), ptr.baseAddress!, newValue.utf8CString.count - 1)\n            })\n        }"@
}

/// An opaque property getter: wraps the freshly cloned handle the entry
/// point returns in the field type's own class; the caller owns the new
/// handle, never an alias of the internal one.
pub open spec fn spec_custom_getter(g: GetterView, field_type: Seq<char>) -> Seq<char> {
    "\n        get {\n            return "@ + field_type + "("@ + g.extern_fn_name
        + "(self.rawPtr())!)\n        }"@
}

/// An opaque property setter: hands the new value's raw handle over; the
/// native side clones it, so the argument stays owned by the caller.
pub open spec fn spec_custom_setter(s: SetterView) -> Seq<char> {
    "\n        set {\n            "@ + s.extern_fn_name
        + "(self.rawPtr(), newValue.rawPtr())\n        }"@
}

/// The accessor body a resolved getter emits, by field kind.
pub open spec fn spec_getter_body(g: GetterView, f: FieldWrapperView) -> Seq<char> {
    match f.wrapper_type {
        FieldWrapperType::Primitive => spec_primitive_getter(g),
        FieldWrapperType::String => spec_string_getter(g),
        FieldWrapperType::Custom => spec_custom_getter(g, f.field_type),
    }
}

/// The accessor body a resolved setter emits, by field kind.
pub open spec fn spec_setter_body(s: SetterView, f: FieldWrapperView) -> Seq<char> {
    match f.wrapper_type {
        FieldWrapperType::Primitive => spec_primitive_setter(s),
        FieldWrapperType::String => spec_string_setter(s),
        FieldWrapperType::Custom => spec_custom_setter(s),
    }
}

/// The computed property of one field: nothing when no accessor is
/// resolved.
pub open spec fn spec_property(f: FieldWrapperView) -> Seq<char> {
    match (f.getter, f.setter) {
        (Option::Some(g), Option::Some(s)) => "\n    public var "@ + f.field_name + ": "@
            + f.field_type + " {\n"@ + spec_getter_body(g, f) + "\n"@ + spec_setter_body(s, f)
            + "\n    }\n"@,
        (Option::Some(g), Option::None) => "\n    public var "@ + f.field_name + ": "@
            + f.field_type + " {\n"@ + spec_getter_body(g, f) + "\n    }\n"@,
        (Option::None, Option::Some(s)) => "\n    public var "@ + f.field_name + ": "@
            + f.field_type + " {\n"@ + spec_setter_body(s, f) + "\n    }\n"@,
        (Option::None, Option::None) => Seq::<char>::empty(),
    }
}

pub open spec fn spec_properties(fields: Seq<FieldWrapperView>) -> Seq<char>
    decreases fields.len(),
{
    if fields.len() == 0 {
        Seq::<char>::empty()
    } else {
        spec_properties(fields.drop_last()) + spec_property(fields.last())
    }
}

fn getter_body(g: &Getter, f: &FieldWrapper) -> (r: String)
    ensures
        r@ == spec_getter_body(g@, f@),
{
    match f.wrapper_type {
        FieldWrapperType::Primitive => {
            let mut r = String::from_str("\n        get {\n            return ");
            r.append(g.extern_fn_name.as_str());
            r.append("(self.rawPtr())\n        }");
            r
        },
        FieldWrapperType::String => {
            let mut r = String::from_str("\n        get {\n            let slice_ptr = ");
            r.append(g.extern_fn_name.as_str());
            r.append(
                "(self.rawPtr())\n            let c_str_ptr = __hiFfi__$slice_ptr(slice_ptr)\n            let c_str_len = __hiFfi__$slice_len(slice_ptr)\n            let typed_pointer = c_str_ptr!.assumingMemoryBound(to: UInt8.self)\n            let bytes: UnsafeBufferPointer<UInt8> = UnsafeBufferPointer(start: typed_pointer, count: Int(c_str_len))\n            let result = String(bytes: bytes, encoding: .utf8)!\n            __hiFfi__$slice_drop(slice_ptr)\n            return result\n        }",
            );
            r
        },
        FieldWrapperType::Custom => {
            let mut r = String::from_str("\n        get {\n            return ");
            r.append(f.field_type.as_str());
            r.append("(");
            r.append(g.extern_fn_name.as_str());
            r.append("(self.rawPtr())!)\n        }");
            r
        },
    }
}

fn setter_body(s: &Setter, f: &FieldWrapper) -> (r: String)
    ensures
        r@ == spec_setter_body(s@, f@),
{
    match f.wrapper_type {
        FieldWrapperType::Primitive => {
            let mut r = String::from_str("\n        set {\n            ");
            r.append(s.extern_fn_name.as_str());
            r.append("(self.rawPtr(), newValue)\n        }");
            r
        },
        FieldWrapperType::String => {
            let mut r = String::from_str(
                "\n        set {\n            newValue.utf8CString.withUnsafeBufferPointer({ ptr in\n                ",
            );
            r.append(s.extern_fn_name.as_str());
            r.append(
                "(self.rawPtr(), ptr.baseAddress!, newValue.utf8CString.count - 1)\n            })\n        }",
            );
            r
        },
        FieldWrapperType::Custom => {
            let mut r = String::from_str("\n        set {\n            ");
            r.append(s.extern_fn_name.as_str());
            r.append("(self.rawPtr(), newValue.rawPtr())\n        }");
            r
        },
    }
}

fn gen_property(f: &FieldWrapper) -> (r: String)
    ensures
        r@ == spec_property(f@),
{
    match (&f.getter, &f.setter) {
        (Option::Some(g), Option::Some(s)) => {
            let mut r = String::from_str("\n    public var ");
            r.append(f.field_name.as_str());
            r.append(": ");
            r.append(f.field_type.as_str());
            r.append(" {\n");
            let g_text = getter_body(g, f);
            r.append(g_text.as_str());
            r.append("\n");
            let s_text = setter_body(s, f);
            r.append(s_text.as_str());
            r.append("\n    }\n");
            r
        },
        (Option::Some(g), Option::None) => {
            let mut r = String::from_str("\n    public var ");
            r.append(f.field_name.as_str());
            r.append(": ");
            r.append(f.field_type.as_str());
            r.append(" {\n");
            let g_text = getter_body(g, f);
            r.append(g_text.as_str());
            r.append("\n    }\n");
            r
        },
        (Option::None, Option::Some(s)) => {
            let mut r = String::from_str("\n    public var ");
            r.append(f.field_name.as_str());
            r.append(": ");
            r.append(f.field_type.as_str());
            r.append(" {\n");
            let s_text = setter_body(s, f);
            r.append(s_text.as_str());
            r.append("\n    }\n");
            r
        },
        (Option::None, Option::None) => String::new(),
    }
}

/// The optional convenience initializer wired to the default-constructor
/// entry point.
pub open spec fn spec_default_constructor_init(
    ctor: Option<DefaultConstructorView>,
) -> Seq<char> {
    match ctor {
        Option::Some(c) => "\n    public convenience init() {\n        self.init("@
            + c.extern_fn_name + "())\n    }\n"@,
        Option::None => Seq::<char>::empty(),
    }
}

fn default_constructor_init(ctor: &Option<DefaultConstructor>) -> (r: String)
    ensures
        r@ == spec_default_constructor_init(ctor.deep_view()),
{
    match ctor {
        Option::Some(c) => {
            let mut r = String::from_str(
                "\n    public convenience init() {\n        self.init(",
            );
            r.append(c.extern_fn_name.as_str());
            r.append("())\n    }\n");
            r
        },
        Option::None => String::new(),
    }
}

/// The wrapper class of a struct: a deinitializer that drops the handle
/// exactly once, the optional initializer, and the computed properties.
pub open spec fn spec_gen_class_definition(s: StructWrapperView) -> Seq<char> {
    "\npublic class "@ + s.name + ": Opaque {\n    deinit {\n        "@ + s.drop_ext_fn_name
        + "(self.rawPtr());\n    }\n"@ + spec_default_constructor_init(s.default_constructor)
        + "\n"@ + spec_properties(s.fields) + "\n}\n"@
}

/// Emits the reference-counted backend's class source for a struct schema.
pub fn gen_class_definition(s: &StructWrapper) -> (r: String)
    ensures
        r@ == spec_gen_class_definition(s@),
{
    let ghost dv = s.fields.deep_view();
    let mut r = String::from_str("\npublic class ");
    r.append(s.name.as_str());
    r.append(": Opaque {\n    deinit {\n        ");
    r.append(s.drop_ext_fn_name.as_str());
    r.append("(self.rawPtr());\n    }\n");
    let ctor = default_constructor_init(&s.default_constructor);
    r.append(ctor.as_str());
    r.append("\n");
    let mut props = String::new();
    let mut i: usize = 0;
    while i < s.fields.len()
        invariant
            0 <= i <= s.fields.len(),
            dv == s.fields.deep_view(),
            dv.len() == s.fields.len(),
            props@ == spec_properties(dv.take(i as int)),
        decreases s.fields.len() - i,
    {
        proof {
            assert(dv[i as int] == s.fields@[i as int]@);
            assert(dv.take(i + 1).drop_last() =~= dv.take(i as int));
            assert(dv.take(i + 1).last() == dv[i as int]);
        }
        let p = gen_property(&s.fields[i]);
        props.append(p.as_str());
        i = i + 1;
    }
    proof {
        assert(dv.take(s.fields.len() as int) =~= dv);
    }
    r.append(props.as_str());
    r.append("\n}\n");
    r
}

} // verus!
