//! Deterministic construction of the exported symbol names.
//!
//! Every entry point that crosses the ABI boundary is named here and nowhere
//! else: `<prefix>$<fnName>` for free functions, `<prefix>$<Type>__<member>`
//! for struct members and lifecycle operations.  A small fixed set of runtime
//! symbols (text-buffer accessors and destructors) is reserved alongside them.
use vstd::prelude::*;

verus! {

/// Symbol for a free function wrapper: `__hiFfi__$<name>`.
pub open spec fn spec_fn_symbol(name: Seq<char>) -> Seq<char> {
    "__hiFfi__$"@ + name
}

/// Symbol for a struct member: `__hiFfi__$<Type>__<member>`.
pub open spec fn spec_member_symbol(ty_name: Seq<char>, member: Seq<char>) -> Seq<char> {
    "__hiFfi__$"@ + ty_name + "__"@ + member
}

/// Symbol of the getter entry point for a field: the member is `get_<field>`.
pub open spec fn spec_getter_symbol(ty_name: Seq<char>, field: Seq<char>) -> Seq<char> {
    "__hiFfi__$"@ + ty_name + "__get_"@ + field
}

/// Symbol of the setter entry point for a field: the member is `set_<field>`.
pub open spec fn spec_setter_symbol(ty_name: Seq<char>, field: Seq<char>) -> Seq<char> {
    "__hiFfi__$"@ + ty_name + "__set_"@ + field
}

/// Symbol of the destructor entry point of a struct.
pub open spec fn spec_drop_symbol(ty_name: Seq<char>) -> Seq<char> {
    spec_member_symbol(ty_name, "drop"@)
}

/// Symbol of the clone entry point of a struct.
pub open spec fn spec_clone_symbol(ty_name: Seq<char>) -> Seq<char> {
    spec_member_symbol(ty_name, "clone"@)
}

/// Symbol of the default-constructor entry point of a struct.
pub open spec fn spec_default_symbol(ty_name: Seq<char>) -> Seq<char> {
    spec_member_symbol(ty_name, "default"@)
}

/// The reserved runtime symbols: accessors and destructor of the shared
/// text-slice descriptor, and of the owned text handle.
pub open spec fn spec_reserved_symbols() -> Seq<Seq<char>> {
    seq![
        "__hiFfi__$slice_len"@,
        "__hiFfi__$slice_ptr"@,
        "__hiFfi__$slice_drop"@,
        "__hiFfi__$rust_string_drop"@,
        "__hiFfi__$rust_string_data"@,
        "__hiFfi__$rust_string_len"@,
    ]
}

pub fn fn_symbol(name: &str) -> (r: String)
    ensures
        r@ == spec_fn_symbol(name@),
{
    let mut r = String::from_str("__hiFfi__$");
    r.append(name);
    r
}

pub fn member_symbol(ty_name: &str, member: &str) -> (r: String)
    ensures
        r@ == spec_member_symbol(ty_name@, member@),
{
    let mut r = String::from_str("__hiFfi__$");
    r.append(ty_name);
    r.append("__");
    r.append(member);
    r
}

pub fn getter_symbol(ty_name: &str, field: &str) -> (r: String)
    ensures
        r@ == spec_getter_symbol(ty_name@, field@),
{
    let mut r = String::from_str("__hiFfi__$");
    r.append(ty_name);
    r.append("__get_");
    r.append(field);
    r
}

pub fn setter_symbol(ty_name: &str, field: &str) -> (r: String)
    ensures
        r@ == spec_setter_symbol(ty_name@, field@),
{
    let mut r = String::from_str("__hiFfi__$");
    r.append(ty_name);
    r.append("__set_");
    r.append(field);
    r
}

pub fn drop_symbol(ty_name: &str) -> (r: String)
    ensures
        r@ == spec_drop_symbol(ty_name@),
{
    member_symbol(ty_name, "drop")
}

pub fn clone_symbol(ty_name: &str) -> (r: String)
    ensures
        r@ == spec_clone_symbol(ty_name@),
{
    member_symbol(ty_name, "clone")
}

pub fn default_symbol(ty_name: &str) -> (r: String)
    ensures
        r@ == spec_default_symbol(ty_name@),
{
    member_symbol(ty_name, "default")
}

/// Compares two text slices by contents.
pub fn str_eq(a: &str, b: &str) -> (r: bool)
    ensures
        r == (a@ == b@),
{
    let sa: String = a.to_owned();
    let sb: String = b.to_owned();
    sa.eq(&sb)
}

/// Whether a list of names holds one with the given contents.
pub fn names_contain(v: &Vec<String>, s: &str) -> (r: bool)
    ensures
        r == v.deep_view().contains(s@),
{
    let mut j: usize = 0;
    while j < v.len()
        invariant
            0 <= j <= v.len(),
            forall|k: int| 0 <= k < j ==> v.deep_view()[k] != s@,
        decreases v.len() - j,
    {
        if str_eq(v[j].as_str(), s) {
            proof {
                assert(v.deep_view()[j as int] == s@);
            }
            return true;
        }
        j = j + 1;
    }
    proof {
        assert(forall|k: int| 0 <= k < v.deep_view().len() ==> v.deep_view()[k] != s@);
    }
    false
}

pub fn reserved_symbols() -> (r: Vec<String>)
    ensures
        r@.len() == spec_reserved_symbols().len(),
        forall|i: int| 0 <= i < r@.len() ==> r@[i]@ == spec_reserved_symbols()[i],
{
    let mut r: Vec<String> = Vec::new();
    r.push(String::from_str("__hiFfi__$slice_len"));
    r.push(String::from_str("__hiFfi__$slice_ptr"));
    r.push(String::from_str("__hiFfi__$slice_drop"));
    r.push(String::from_str("__hiFfi__$rust_string_drop"));
    r.push(String::from_str("__hiFfi__$rust_string_data"));
    r.push(String::from_str("__hiFfi__$rust_string_len"));
    assert(r@.len() == spec_reserved_symbols().len());
    r
}

} // verus!
