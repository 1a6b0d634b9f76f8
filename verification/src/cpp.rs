//! One-time bootstrap text for the manual-memory backend: the shared base
//! header with the fixed-width type aliases, the reserved runtime entry
//! points, and the scoped adapter for owned text handles.
use vstd::prelude::*;

verus! {

/// The shared base header's text.
pub open spec fn spec_cpp_code_base() -> Seq<char> {
    "\n#ifndef BASE_H
#define BASE_H

#include <cstdint>
#include <cstddef>
#include <string>

using u8 = uint8_t;
using u16 = uint16_t;
using u32 = uint32_t;
using u64 = uint64_t;

using i8 = int8_t;
using i16 = int16_t;
using i32 = int32_t;
using i64 = int64_t;

using f32 = float;
using f64 = double;

using usize = size_t;

extern \"C\" {
    void __hiFfi__$slice_drop(void*);
    char* __hiFfi__$slice_ptr(void*);
    usize __hiFfi__$slice_len(void*);

    void __hiFfi__$rust_string_drop(void*);
    char* __hiFfi__$rust_string_data(void*);
    usize __hiFfi__$rust_string_len(void*);
}

class RustString {
    void* self;
public:
    RustString(void* self) : self(self) {}
    ~RustString() {
        __hiFfi__$rust_string_drop(self);
    }
    std::string to_string() {
        auto ptr = __hiFfi__$rust_string_data(self);
        auto len = __hiFfi__$rust_string_len(self);
        return std::string(ptr, len);
    }
};

#endif

"@
}

/// Emits the manual-memory backend's shared base header.
pub fn cpp_code_base() -> (r: String)
    ensures
        r@ == spec_cpp_code_base(),
{
    String::from_str(
        "\n#ifndef BASE_H
#define BASE_H

#include <cstdint>
#include <cstddef>
#include <string>

using u8 = uint8_t;
using u16 = uint16_t;
using u32 = uint32_t;
using u64 = uint64_t;

using i8 = int8_t;
using i16 = int16_t;
using i32 = int32_t;
using i64 = int64_t;

using f32 = float;
using f64 = double;

using usize = size_t;

extern \"C\" {
    void __hiFfi__$slice_drop(void*);
    char* __hiFfi__$slice_ptr(void*);
    usize __hiFfi__$slice_len(void*);

    void __hiFfi__$rust_string_drop(void*);
    char* __hiFfi__$rust_string_data(void*);
    usize __hiFfi__$rust_string_len(void*);
}

class RustString {
    void* self;
public:
    RustString(void* self) : self(self) {}
    ~RustString() {
        __hiFfi__$rust_string_drop(self);
    }
    std::string to_string() {
        auto ptr = __hiFfi__$rust_string_data(self);
        auto len = __hiFfi__$rust_string_len(self);
        return std::string(ptr, len);
    }
};

#endif

",
    )
}

} // verus!
