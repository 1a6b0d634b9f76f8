//! The declaration-independent native runtime emitted once per build: the
//! text-slice descriptor, its accessors and destructor, and the owned text
//! handle's accessors and destructor, under the reserved runtime symbols.
use vstd::prelude::*;

verus! {

/// The native runtime source fragment, emitted once per build ahead of the
/// first declaration's shim.
pub open spec fn spec_rust_code_base() -> Seq<char> {
    "#[repr(C)]
pub struct FfiSlice {
    pub ptr: *const u8,
    pub len: usize,
}

#[doc(hidden)]
#[export_name = \"__hiFfi__$slice_len\"]
pub unsafe extern \"C\" fn slice_len(_self: *const FfiSlice) -> usize {
    unsafe {
        (*_self).len
    }
}

#[doc(hidden)]
#[export_name = \"__hiFfi__$slice_ptr\"]
pub unsafe extern \"C\" fn slice_ptr(_self: *const FfiSlice) -> *const std::os::raw::c_char {
    unsafe {
        (*_self).ptr as *const std::os::raw::c_char
    }
}

#[doc(hidden)]
#[export_name = \"__hiFfi__$slice_drop\"]
pub unsafe extern \"C\" fn slice_drop(_self: *mut FfiSlice) {
    unsafe {
        let _ = Box::from_raw(_self);
    }
}

#[doc(hidden)]
#[export_name = \"__hiFfi__$rust_string_drop\"]
pub unsafe extern \"C\" fn rust_string_drop(_self: *mut std::ffi::c_void) {
    unsafe {
        let _ = Box::from_raw(_self as *mut String);
    }
}

#[doc(hidden)]
#[export_name = \"__hiFfi__$rust_string_data\"]
pub unsafe extern \"C\" fn rust_string_data(_self: *const std::ffi::c_void) -> *const u8 {
    unsafe {
        let s = &*(_self as *const String);
        s.as_ptr()
    }
}

#[doc(hidden)]
#[export_name = \"__hiFfi__$rust_string_len\"]
pub unsafe extern \"C\" fn rust_string_len(_self: *const std::ffi::c_void) -> usize {
    unsafe {
        let s = &*(_self as *const String);
        s.len()
    }
}
"@
}

pub fn rust_code_base() -> (r: String)
    ensures
        r@ == spec_rust_code_base(),
{
    String::from_str(
        "#[repr(C)]
pub struct FfiSlice {
    pub ptr: *const u8,
    pub len: usize,
}

#[doc(hidden)]
#[export_name = \"__hiFfi__$slice_len\"]
pub unsafe extern \"C\" fn slice_len(_self: *const FfiSlice) -> usize {
    unsafe {
        (*_self).len
    }
}

#[doc(hidden)]
#[export_name = \"__hiFfi__$slice_ptr\"]
pub unsafe extern \"C\" fn slice_ptr(_self: *const FfiSlice) -> *const std::os::raw::c_char {
    unsafe {
        (*_self).ptr as *const std::os::raw::c_char
    }
}

#[doc(hidden)]
#[export_name = \"__hiFfi__$slice_drop\"]
pub unsafe extern \"C\" fn slice_drop(_self: *mut FfiSlice) {
    unsafe {
        let _ = Box::from_raw(_self);
    }
}

#[doc(hidden)]
#[export_name = \"__hiFfi__$rust_string_drop\"]
pub unsafe extern \"C\" fn rust_string_drop(_self: *mut std::ffi::c_void) {
    unsafe {
        let _ = Box::from_raw(_self as *mut String);
    }
}

#[doc(hidden)]
#[export_name = \"__hiFfi__$rust_string_data\"]
pub unsafe extern \"C\" fn rust_string_data(_self: *const std::ffi::c_void) -> *const u8 {
    unsafe {
        let s = &*(_self as *const String);
        s.as_ptr()
    }
}

#[doc(hidden)]
#[export_name = \"__hiFfi__$rust_string_len\"]
pub unsafe extern \"C\" fn rust_string_len(_self: *const std::ffi::c_void) -> usize {
    unsafe {
        let s = &*(_self as *const String);
        s.len()
    }
}
",
    )
}

} // verus!
