//! One-time bootstrap text for the reference-counted backend: the shared
//! base source with the opaque-handle base class and owned-text adapter, the
//! shared C header's fixed head, and the packaging descriptors.
use vstd::prelude::*;

verus! {

/// The shared base source's text: the raw-handle base class and the owned
/// text adapter whose deinitializer frees the handle exactly once.
pub open spec fn spec_swift_code_base() -> Seq<char> {
    "\nimport Foundation

public typealias bool = Bool

open class Opaque {
    private var _self: UnsafeMutableRawPointer

    public required init(_ _self: UnsafeMutableRawPointer) {
        self._self = _self
    }

    open func rawPtr() -> UnsafeMutableRawPointer {
        return self._self
    }
}

public class RustString: Opaque {
    public func to_string() -> String {
        let c_void_ptr = __hiFfi__$rust_string_data(self.rawPtr())
        let c_str_ptr = c_void_ptr!.assumingMemoryBound(to: UInt8.self)
        let c_str_len = __hiFfi__$rust_string_len(self.rawPtr())
        let bytes: UnsafeBufferPointer<UInt8> = UnsafeBufferPointer(start: c_str_ptr, count: Int(c_str_len))
        return String(bytes: bytes, encoding: .utf8)!
    }

    deinit {
        __hiFfi__$rust_string_drop(self.rawPtr());
    }
}

"@
}

/// Emits the reference-counted backend's shared base source.
pub fn swift_code_base() -> (r: String)
    ensures
        r@ == spec_swift_code_base(),
{
    String::from_str(
        "\nimport Foundation

public typealias bool = Bool

open class Opaque {
    private var _self: UnsafeMutableRawPointer

    public required init(_ _self: UnsafeMutableRawPointer) {
        self._self = _self
    }

    open func rawPtr() -> UnsafeMutableRawPointer {
        return self._self
    }
}

public class RustString: Opaque {
    public func to_string() -> String {
        let c_void_ptr = __hiFfi__$rust_string_data(self.rawPtr())
        let c_str_ptr = c_void_ptr!.assumingMemoryBound(to: UInt8.self)
        let c_str_len = __hiFfi__$rust_string_len(self.rawPtr())
        let bytes: UnsafeBufferPointer<UInt8> = UnsafeBufferPointer(start: c_str_ptr, count: Int(c_str_len))
        return String(bytes: bytes, encoding: .utf8)!
    }

    deinit {
        __hiFfi__$rust_string_drop(self.rawPtr());
    }
}

",
    )
}

/// The fixed head of the shared C header: fixed-width type aliases and the
/// six runtime entry points of the owned-text handle and the text-slice
/// descriptor, with lengths typed `size_t` to match the native side.
pub open spec fn spec_swift_c_header_code_base() -> Seq<char> {
    "\n#include <stdint.h>
#include <stdbool.h>
#include <stddef.h>

typedef uint8_t u8;
typedef uint16_t u16;
typedef uint32_t u32;
typedef uint64_t u64;

typedef int8_t i8;
typedef int16_t i16;
typedef int32_t i32;
typedef int64_t i64;

typedef float f32;
typedef double f64;

void* __hiFfi__$rust_string_data(void* self);
size_t __hiFfi__$rust_string_len(void* self);
void __hiFfi__$rust_string_drop(void* self);
void* __hiFfi__$slice_ptr(void* self);
size_t __hiFfi__$slice_len(void* self);
void __hiFfi__$slice_drop(void* self);
"@
}

/// Emits the shared C header's fixed head.
pub fn swift_c_header_code_base() -> (r: String)
    ensures
        r@ == spec_swift_c_header_code_base(),
{
    String::from_str(
        "\n#include <stdint.h>
#include <stdbool.h>
#include <stddef.h>

typedef uint8_t u8;
typedef uint16_t u16;
typedef uint32_t u32;
typedef uint64_t u64;

typedef int8_t i8;
typedef int16_t i16;
typedef int32_t i32;
typedef int64_t i64;

typedef float f32;
typedef double f64;

void* __hiFfi__$rust_string_data(void* self);
size_t __hiFfi__$rust_string_len(void* self);
void __hiFfi__$rust_string_drop(void* self);
void* __hiFfi__$slice_ptr(void* self);
size_t __hiFfi__$slice_len(void* self);
void __hiFfi__$slice_drop(void* self);
",
    )
}

/// The packaging descriptor of the C shim module.
pub open spec fn spec_swift_c_ffi_package_definition() -> Seq<char> {
    "\n// swift-tools-version: 5.5
import PackageDescription

let package = Package(
    name: \"CFfiModule\",
    products: [
        .library(name: \"CFfiModule\", targets: [\"CFfiModule\"]),
    ],
    targets: [
        .systemLibrary(name: \"CFfiModule\"),
    ]
)
"@
}

/// Emits the C shim module's packaging descriptor.
pub fn swift_c_ffi_package_definition() -> (r: String)
    ensures
        r@ == spec_swift_c_ffi_package_definition(),
{
    String::from_str(
        "\n// swift-tools-version: 5.5
import PackageDescription

let package = Package(
    name: \"CFfiModule\",
    products: [
        .library(name: \"CFfiModule\", targets: [\"CFfiModule\"]),
    ],
    targets: [
        .systemLibrary(name: \"CFfiModule\"),
    ]
)
",
    )
}

/// The packaging descriptor of the consumer-language module.
pub open spec fn spec_swift_ffi_package_definition() -> Seq<char> {
    "\n// swift-tools-version: 5.5
import PackageDescription

let package = Package(
    name: \"FfiModule\",
    products: [
        .library(name: \"FfiModule\", targets: [\"FfiModule\"]),
    ],
    dependencies: [
        .package(path: \"../CFfiModule\"),
    ],
    targets: [
        .target(
            name: \"FfiModule\",
            dependencies: [\"CFfiModule\"]),
    ]
)
"@
}

/// Emits the consumer-language module's packaging descriptor.
pub fn swift_ffi_package_definition() -> (r: String)
    ensures
        r@ == spec_swift_ffi_package_definition(),
{
    String::from_str(
        "\n// swift-tools-version: 5.5
import PackageDescription

let package = Package(
    name: \"FfiModule\",
    products: [
        .library(name: \"FfiModule\", targets: [\"FfiModule\"]),
    ],
    dependencies: [
        .package(path: \"../CFfiModule\"),
    ],
    targets: [
        .target(
            name: \"FfiModule\",
            dependencies: [\"CFfiModule\"]),
    ]
)
",
    )
}

/// The module map binding the shared C header to the built library of the
/// given package.
pub open spec fn spec_clang_module_map(package_name: Seq<char>) -> Seq<char> {
    "\nmodule CFfiModule {\n    header \"ffi_swift.h\"\n    link \""@ + package_name
        + "\"\n    export *\n}\n"@
}

/// Emits the module map for the given package name.
pub fn clang_module_map(package_name: &str) -> (r: String)
    ensures
        r@ == spec_clang_module_map(package_name@),
{
    let mut r = String::from_str("\nmodule CFfiModule {\n    header \"ffi_swift.h\"\n    link \"");
    r.append(package_name);
    r.append("\"\n    export *\n}\n");
    r
}

} // verus!
