//! The struct schema and the native ABI shim emitted for it.
//!
//! For every struct the shim holds one destructor and one clone entry point,
//! one accessor per resolved getter or setter, and, when the declaration is
//! default-constructible, one zero-argument constructor.  All of it is pure
//! text synthesis: validation failed earlier or not at all.
use vstd::prelude::*;

verus! {

/// How a field's type crosses the boundary: by value, as an owned text
/// buffer, or as an opaque handle.
#[derive(Clone, Copy, Debug, PartialEq, Eq, Structural)]
pub enum FieldWrapperType {
    Primitive,
    String,
    Custom,
}

/// A resolved getter: its method name (`get_<field>`) and its exported
/// symbol.
#[derive(Debug)]
pub struct Getter {
    pub name: String,
    pub extern_fn_name: String,
}

/// A resolved setter: its method name (`set_<field>`) and its exported
/// symbol.
#[derive(Debug)]
pub struct Setter {
    pub name: String,
    pub extern_fn_name: String,
}

/// The zero-argument constructor allocated when the declaration derives its
/// default-construction capability.
#[derive(Debug)]
pub struct DefaultConstructor {
    pub constructor_name: String,
    pub extern_fn_name: String,
}

/// One field of a struct schema.
#[derive(Debug)]
pub struct FieldWrapper {
    pub field_name: String,
    pub field_type: String,
    pub wrapper_type: FieldWrapperType,
    pub getter: Option<Getter>,
    pub setter: Option<Setter>,
}

/// A validated struct schema.
#[derive(Debug)]
pub struct StructWrapper {
    pub name: String,
    pub fields: Vec<FieldWrapper>,
    pub default_constructor: Option<DefaultConstructor>,
    pub drop_ext_fn_name: String,
    pub clone_ext_fn_name: String,
    pub original_definition: String,
}

pub ghost struct GetterView {
    pub name: Seq<char>,
    pub extern_fn_name: Seq<char>,
}

pub ghost struct SetterView {
    pub name: Seq<char>,
    pub extern_fn_name: Seq<char>,
}

pub ghost struct DefaultConstructorView {
    pub constructor_name: Seq<char>,
    pub extern_fn_name: Seq<char>,
}

pub ghost struct FieldWrapperView {
    pub field_name: Seq<char>,
    pub field_type: Seq<char>,
    pub wrapper_type: FieldWrapperType,
    pub getter: Option<GetterView>,
    pub setter: Option<SetterView>,
}

pub ghost struct StructWrapperView {
    pub name: Seq<char>,
    pub fields: Seq<FieldWrapperView>,
    pub default_constructor: Option<DefaultConstructorView>,
    pub drop_ext_fn_name: Seq<char>,
    pub clone_ext_fn_name: Seq<char>,
    pub original_definition: Seq<char>,
}

impl View for Getter {
    type V = GetterView;

    open spec fn view(&self) -> GetterView {
        GetterView { name: self.name@, extern_fn_name: self.extern_fn_name@ }
    }
}

impl View for Setter {
    type V = SetterView;

    open spec fn view(&self) -> SetterView {
        SetterView { name: self.name@, extern_fn_name: self.extern_fn_name@ }
    }
}

impl View for DefaultConstructor {
    type V = DefaultConstructorView;

    open spec fn view(&self) -> DefaultConstructorView {
        DefaultConstructorView {
            constructor_name: self.constructor_name@,
            extern_fn_name: self.extern_fn_name@,
        }
    }
}

impl View for FieldWrapper {
    type V = FieldWrapperView;

    open spec fn view(&self) -> FieldWrapperView {
        FieldWrapperView {
            field_name: self.field_name@,
            field_type: self.field_type@,
            wrapper_type: self.wrapper_type,
            getter: self.getter.deep_view(),
            setter: self.setter.deep_view(),
        }
    }
}

impl DeepView for Getter {
    type V = GetterView;

    open spec fn deep_view(&self) -> GetterView {
        self@
    }
}

impl DeepView for Setter {
    type V = SetterView;

    open spec fn deep_view(&self) -> SetterView {
        self@
    }
}

impl DeepView for FieldWrapper {
    type V = FieldWrapperView;

    open spec fn deep_view(&self) -> FieldWrapperView {
        self@
    }
}

impl View for StructWrapper {
    type V = StructWrapperView;

    open spec fn view(&self) -> StructWrapperView {
        StructWrapperView {
            name: self.name@,
            fields: self.fields.deep_view(),
            default_constructor: self.default_constructor.deep_view(),
            drop_ext_fn_name: self.drop_ext_fn_name@,
            clone_ext_fn_name: self.clone_ext_fn_name@,
            original_definition: self.original_definition@,
        }
    }
}

impl DeepView for DefaultConstructor {
    type V = DefaultConstructorView;

    open spec fn deep_view(&self) -> DefaultConstructorView {
        self@
    }
}

/// The attribute pair put above every exported shim function.
pub open spec fn spec_shim_export_header(sym: Seq<char>) -> Seq<char> {
    "\n#[doc(hidden)]\n#[export_name = \""@ + sym + "\"]\n"@
}

pub(crate) fn shim_export_header(sym: &str) -> (r: String)
    ensures
        r@ == spec_shim_export_header(sym@),
{
    let mut r = String::from_str("\n#[doc(hidden)]\n#[export_name = \"");
    r.append(sym);
    r.append("\"]\n");
    r
}

/// The destructor entry point: consumes the handle and frees the value.
pub open spec fn spec_gen_drop(drop_sym: Seq<char>, class_name: Seq<char>) -> Seq<char> {
    spec_shim_export_header(drop_sym) + "pub unsafe extern \"C\" fn "@ + class_name
        + "_drop(_self: *mut "@ + class_name
        + ") {\n    unsafe {\n        let _ = Box::from_raw(_self);\n    }\n}\n"@
}

fn gen_drop(drop_sym: &str, class_name: &str) -> (r: String)
    ensures
        r@ == spec_gen_drop(drop_sym@, class_name@),
{
    let mut r = shim_export_header(drop_sym);
    r.append("pub unsafe extern \"C\" fn ");
    r.append(class_name);
    r.append("_drop(_self: *mut ");
    r.append(class_name);
    r.append(") {\n    unsafe {\n        let _ = Box::from_raw(_self);\n    }\n}\n");
    r
}

/// The clone entry point: allocates and returns a duplicate handle.
pub open spec fn spec_gen_clone(clone_sym: Seq<char>, class_name: Seq<char>) -> Seq<char> {
    spec_shim_export_header(clone_sym) + "pub unsafe extern \"C\" fn "@ + class_name
        + "_clone(_self: *mut "@ + class_name + ") -> *mut "@ + class_name
        + " {\n    unsafe {\n        let cloned: Box<"@ + class_name
        + "> = Box::new((*_self).clone());\n        Box::into_raw(cloned)\n    }\n}\n"@
}

fn gen_clone(clone_sym: &str, class_name: &str) -> (r: String)
    ensures
        r@ == spec_gen_clone(clone_sym@, class_name@),
{
    let mut r = shim_export_header(clone_sym);
    r.append("pub unsafe extern \"C\" fn ");
    r.append(class_name);
    r.append("_clone(_self: *mut ");
    r.append(class_name);
    r.append(") -> *mut ");
    r.append(class_name);
    r.append(" {\n    unsafe {\n        let cloned: Box<");
    r.append(class_name);
    r.append("> = Box::new((*_self).clone());\n        Box::into_raw(cloned)\n    }\n}\n");
    r
}

/// The zero-argument constructor entry point, when the capability exists;
/// nothing otherwise.
pub open spec fn spec_gen_default_constructor(
    ctor: Option<DefaultConstructorView>,
    class_name: Seq<char>,
) -> Seq<char> {
    match ctor {
        Option::Some(c) => spec_shim_export_header(c.extern_fn_name)
            + "pub unsafe extern \"C\" fn "@ + c.constructor_name + "() -> *mut "@ + class_name
            + " {\n    unsafe {\n        let instance = Box::new("@ + class_name
            + "::default());\n        Box::into_raw(instance)\n    }\n}\n"@,
        Option::None => Seq::<char>::empty(),
    }
}

fn gen_default_constructor(ctor: &Option<DefaultConstructor>, class_name: &str) -> (r: String)
    ensures
        r@ == spec_gen_default_constructor(ctor.deep_view(), class_name@),
{
    match ctor {
        Option::Some(c) => {
            let mut r = shim_export_header(c.extern_fn_name.as_str());
            r.append("pub unsafe extern \"C\" fn ");
            r.append(c.constructor_name.as_str());
            r.append("() -> *mut ");
            r.append(class_name);
            r.append(" {\n    unsafe {\n        let instance = Box::new(");
            r.append(class_name);
            r.append("::default());\n        Box::into_raw(instance)\n    }\n}\n");
            r
        },
        Option::None => String::new(),
    }
}

/// A primitive getter: reads the field directly and returns it by value.
pub open spec fn spec_prim_getter_shim(
    g: GetterView,
    field_name: Seq<char>,
    field_type: Seq<char>,
    class_name: Seq<char>,
) -> Seq<char> {
    spec_shim_export_header(g.extern_fn_name) + "pub unsafe extern \"C\" fn "@ + class_name
        + "_"@ + g.name + "(_self: *mut "@ + class_name + ") -> "@ + field_type
        + " {\n    unsafe {\n        (&*_self)."@ + field_name + "\n    }\n}\n"@
}

fn prim_getter_shim(g: &Getter, field_name: &str, field_type: &str, class_name: &str) -> (r:
    String)
    ensures
        r@ == spec_prim_getter_shim(g@, field_name@, field_type@, class_name@),
{
    let mut r = shim_export_header(g.extern_fn_name.as_str());
    r.append("pub unsafe extern \"C\" fn ");
    r.append(class_name);
    r.append("_");
    r.append(g.name.as_str());
    r.append("(_self: *mut ");
    r.append(class_name);
    r.append(") -> ");
    r.append(field_type);
    r.append(" {\n    unsafe {\n        (&*_self).");
    r.append(field_name);
    r.append("\n    }\n}\n");
    r
}

/// A primitive setter: writes the field directly from the passed value.
pub open spec fn spec_prim_setter_shim(
    s: SetterView,
    field_name: Seq<char>,
    field_type: Seq<char>,
    class_name: Seq<char>,
) -> Seq<char> {
    spec_shim_export_header(s.extern_fn_name) + "pub unsafe extern \"C\" fn "@ + class_name
        + "_"@ + s.name + "(_self: *mut "@ + class_name + ", value: "@ + field_type
        + ") {\n    unsafe {\n        (&mut *_self)."@ + field_name + " = value;\n    }\n}\n"@
}

fn prim_setter_shim(s: &Setter, field_name: &str, field_type: &str, class_name: &str) -> (r:
    String)
    ensures
        r@ == spec_prim_setter_shim(s@, field_name@, field_type@, class_name@),
{
    let mut r = shim_export_header(s.extern_fn_name.as_str());
    r.append("pub unsafe extern \"C\" fn ");
    r.append(class_name);
    r.append("_");
    r.append(s.name.as_str());
    r.append("(_self: *mut ");
    r.append(class_name);
    r.append(", value: ");
    r.append(field_type);
    r.append(") {\n    unsafe {\n        (&mut *_self).");
    r.append(field_name);
    r.append(" = value;\n    }\n}\n");
    r
}

/// A text getter: wraps the field's bytes in a freshly allocated
/// length+pointer descriptor and hands the descriptor's ownership out.
pub open spec fn spec_string_getter_shim(
    g: GetterView,
    field_name: Seq<char>,
    class_name: Seq<char>,
) -> Seq<char> {
    spec_shim_export_header(g.extern_fn_name) + "pub unsafe extern \"C\" fn "@ + class_name
        + "_"@ + g.name + "(_self: *mut "@ + class_name
        + ") -> *mut FfiSlice {\n    unsafe {\n        Box::into_raw(Box::new(FfiSlice {\n            ptr: (&*_self)."@
        + field_name + ".as_ptr(),\n            len: (&*_self)."@ + field_name
        + ".len(),\n        }))\n    }\n}\n"@
}

fn string_getter_shim(g: &Getter, field_name: &str, class_name: &str) -> (r: String)
    ensures
        r@ == spec_string_getter_shim(g@, field_name@, class_name@),
{
    let mut r = shim_export_header(g.extern_fn_name.as_str());
    r.append("pub unsafe extern \"C\" fn ");
    r.append(class_name);
    r.append("_");
    r.append(g.name.as_str());
    r.append("(_self: *mut ");
    r.append(class_name);
    r.append(") -> *mut FfiSlice {\n    unsafe {\n        Box::into_raw(Box::new(FfiSlice {\n            ptr: (&*_self).");
    r.append(field_name);
    r.append(".as_ptr(),\n            len: (&*_self).");
    r.append(field_name);
    r.append(".len(),\n        }))\n    }\n}\n");
    r
}

/// A text setter: copies exactly the passed number of bytes into an owned
/// value at once — the pointer carries no terminator guarantee and is always
/// read using the paired length; the caller keeps ownership of its buffer.
/// Invalid encoding aborts, a documented limitation of the generated glue.
pub open spec fn spec_string_setter_shim(
    s: SetterView,
    field_name: Seq<char>,
    class_name: Seq<char>,
) -> Seq<char> {
    spec_shim_export_header(s.extern_fn_name) + "pub unsafe extern \"C\" fn "@ + class_name
        + "_"@ + s.name + "(_self: *mut "@ + class_name
        + ", ptr: *const i8, len: usize) {\n    unsafe {\n        let bytes = std::slice::from_raw_parts(ptr as *const u8, len);\n        (&mut *_self)."@
        + field_name + " = String::from_utf8(bytes.to_vec()).unwrap();\n    }\n}\n"@
}

fn string_setter_shim(s: &Setter, field_name: &str, class_name: &str) -> (r: String)
    ensures
        r@ == spec_string_setter_shim(s@, field_name@, class_name@),
{
    let mut r = shim_export_header(s.extern_fn_name.as_str());
    r.append("pub unsafe extern \"C\" fn ");
    r.append(class_name);
    r.append("_");
    r.append(s.name.as_str());
    r.append("(_self: *mut ");
    r.append(class_name);
    r.append(", ptr: *const i8, len: usize) {\n    unsafe {\n        let bytes = std::slice::from_raw_parts(ptr as *const u8, len);\n        (&mut *_self).");
    r.append(field_name);
    r.append(" = String::from_utf8(bytes.to_vec()).unwrap();\n    }\n}\n");
    r
}

/// An opaque getter: clones the field onto the heap and hands ownership of
/// the duplicate handle to the caller — never an alias of the original.
pub open spec fn spec_custom_getter_shim(
    g: GetterView,
    field_name: Seq<char>,
    field_type: Seq<char>,
    class_name: Seq<char>,
) -> Seq<char> {
    spec_shim_export_header(g.extern_fn_name) + "pub unsafe extern \"C\" fn "@ + class_name
        + "_"@ + g.name + "(_self: *mut "@ + class_name + ") -> *mut "@ + field_type
        + " {\n    unsafe {\n        Box::leak(Box::new((&*_self)."@ + field_name
        + ".clone()))\n    }\n}\n"@
}

fn custom_getter_shim(g: &Getter, field_name: &str, field_type: &str, class_name: &str) -> (r:
    String)
    ensures
        r@ == spec_custom_getter_shim(g@, field_name@, field_type@, class_name@),
{
    let mut r = shim_export_header(g.extern_fn_name.as_str());
    r.append("pub unsafe extern \"C\" fn ");
    r.append(class_name);
    r.append("_");
    r.append(g.name.as_str());
    r.append("(_self: *mut ");
    r.append(class_name);
    r.append(") -> *mut ");
    r.append(field_type);
    r.append(" {\n    unsafe {\n        Box::leak(Box::new((&*_self).");
    r.append(field_name);
    r.append(".clone()))\n    }\n}\n");
    r
}

/// An opaque setter: clones the supplied handle's value into the owner; the
/// caller's argument is unaffected and stays owned by the caller.
pub open spec fn spec_custom_setter_shim(
    s: SetterView,
    field_name: Seq<char>,
    field_type: Seq<char>,
    class_name: Seq<char>,
) -> Seq<char> {
    spec_shim_export_header(s.extern_fn_name) + "pub unsafe extern \"C\" fn "@ + class_name
        + "_"@ + s.name + "(_self: *mut "@ + class_name + ", value: *mut "@ + field_type
        + ") {\n    unsafe {\n        (&mut *_self)."@ + field_name
        + " = (*value).clone();\n    }\n}\n"@
}

fn custom_setter_shim(s: &Setter, field_name: &str, field_type: &str, class_name: &str) -> (r:
    String)
    ensures
        r@ == spec_custom_setter_shim(s@, field_name@, field_type@, class_name@),
{
    let mut r = shim_export_header(s.extern_fn_name.as_str());
    r.append("pub unsafe extern \"C\" fn ");
    r.append(class_name);
    r.append("_");
    r.append(s.name.as_str());
    r.append("(_self: *mut ");
    r.append(class_name);
    r.append(", value: *mut ");
    r.append(field_type);
    r.append(") {\n    unsafe {\n        (&mut *_self).");
    r.append(field_name);
    r.append(" = (*value).clone();\n    }\n}\n");
    r
}

/// The shim text of one field: its getter's entry point, then its setter's,
/// each only where resolved.
pub open spec fn spec_field_shim(f: FieldWrapperView, class_name: Seq<char>) -> Seq<char> {
    (match f.getter {
        Option::Some(g) => match f.wrapper_type {
            FieldWrapperType::Primitive => spec_prim_getter_shim(
                g,
                f.field_name,
                f.field_type,
                class_name,
            ),
            FieldWrapperType::String => spec_string_getter_shim(g, f.field_name, class_name),
            FieldWrapperType::Custom => spec_custom_getter_shim(
                g,
                f.field_name,
                f.field_type,
                class_name,
            ),
        },
        Option::None => Seq::<char>::empty(),
    }) + (match f.setter {
        Option::Some(s) => match f.wrapper_type {
            FieldWrapperType::Primitive => spec_prim_setter_shim(
                s,
                f.field_name,
                f.field_type,
                class_name,
            ),
            FieldWrapperType::String => spec_string_setter_shim(s, f.field_name, class_name),
            FieldWrapperType::Custom => spec_custom_setter_shim(
                s,
                f.field_name,
                f.field_type,
                class_name,
            ),
        },
        Option::None => Seq::<char>::empty(),
    })
}

fn field_shim(f: &FieldWrapper, class_name: &str) -> (r: String)
    ensures
        r@ == spec_field_shim(f@, class_name@),
{
    let mut r = match &f.getter {
        Option::Some(g) => match f.wrapper_type {
            FieldWrapperType::Primitive => prim_getter_shim(
                g,
                f.field_name.as_str(),
                f.field_type.as_str(),
                class_name,
            ),
            FieldWrapperType::String => string_getter_shim(g, f.field_name.as_str(), class_name),
            FieldWrapperType::Custom => custom_getter_shim(
                g,
                f.field_name.as_str(),
                f.field_type.as_str(),
                class_name,
            ),
        },
        Option::None => String::new(),
    };
    let setter_text = match &f.setter {
        Option::Some(s) => match f.wrapper_type {
            FieldWrapperType::Primitive => prim_setter_shim(
                s,
                f.field_name.as_str(),
                f.field_type.as_str(),
                class_name,
            ),
            FieldWrapperType::String => string_setter_shim(s, f.field_name.as_str(), class_name),
            FieldWrapperType::Custom => custom_setter_shim(
                s,
                f.field_name.as_str(),
                f.field_type.as_str(),
                class_name,
            ),
        },
        Option::None => String::new(),
    };
    r.append(setter_text.as_str());
    r
}

/// The shim text of a field sequence, in declaration order.
pub open spec fn spec_fields_shim(fields: Seq<FieldWrapperView>, class_name: Seq<char>) -> Seq<
    char,
>
    decreases fields.len(),
{
    if fields.len() == 0 {
        Seq::<char>::empty()
    } else {
        spec_fields_shim(fields.drop_last(), class_name) + spec_field_shim(
            fields.last(),
            class_name,
        )
    }
}

fn fields_shim(fields: &Vec<FieldWrapper>, class_name: &str) -> (r: String)
    ensures
        r@ == spec_fields_shim(fields.deep_view(), class_name@),
{
    let ghost dv = fields.deep_view();
    let mut r = String::new();
    let mut i: usize = 0;
    while i < fields.len()
        invariant
            0 <= i <= fields.len(),
            dv == fields.deep_view(),
            dv.len() == fields.len(),
            r@ == spec_fields_shim(dv.take(i as int), class_name@),
        decreases fields.len() - i,
    {
        let t = field_shim(&fields[i], class_name);
        proof {
            assert(dv[i as int] == fields@[i as int]@);
            assert(dv.take(i + 1).drop_last() =~= dv.take(i as int));
            assert(dv.take(i + 1).last() == dv[i as int]);
        }
        r.append(t.as_str());
        i = i + 1;
    }
    proof {
        assert(dv.take(fields.len() as int) =~= dv);
    }
    r
}

/// The whole native shim of a struct: the re-emitted declaration, the field
/// accessors, the optional constructor, the destructor, the clone.
pub open spec fn spec_struct_shim(s: StructWrapperView) -> Seq<char> {
    s.original_definition + "\n"@ + spec_fields_shim(s.fields, s.name)
        + spec_gen_default_constructor(s.default_constructor, s.name) + spec_gen_drop(
        s.drop_ext_fn_name,
        s.name,
    ) + spec_gen_clone(s.clone_ext_fn_name, s.name)
}

impl StructWrapper {
    /// Emits the native ABI shim for this struct.
    pub fn rust_shim(&self) -> (r: String)
        ensures
            r@ == spec_struct_shim(self@),
    {
        let mut r = self.original_definition.clone();
        r.append("\n");
        let fields_text = fields_shim(&self.fields, self.name.as_str());
        r.append(fields_text.as_str());
        let ctor_text = gen_default_constructor(&self.default_constructor, self.name.as_str());
        r.append(ctor_text.as_str());
        let drop_text = gen_drop(self.drop_ext_fn_name.as_str(), self.name.as_str());
        r.append(drop_text.as_str());
        let clone_text = gen_clone(self.clone_ext_fn_name.as_str(), self.name.as_str());
        r.append(clone_text.as_str());
        r
    }
}

} // verus!
