//! Per-build state: the append-only naming table and the accumulator flags.
//!
//! One `Session` is created per build and passed into every generator call.
//! It guarantees that no two exported symbols collide (the reserved runtime
//! symbols included), that one-time bootstrap output is handed out exactly
//! once regardless of declaration order, and that the shared-header block of
//! each declaration is appended at most once.
use crate::naming::{names_contain, spec_reserved_symbols, reserved_symbols};
use crate::swift::{
    clang_module_map, spec_clang_module_map, spec_swift_c_ffi_package_definition,
    spec_swift_c_header_code_base, spec_swift_code_base, spec_swift_ffi_package_definition,
    swift_c_ffi_package_definition, swift_c_header_code_base, swift_code_base,
    swift_ffi_package_definition,
};
use crate::wrapper::base::{rust_code_base, spec_rust_code_base};
use vstd::prelude::*;

verus! {

/// Whether a list of names is pairwise distinct.
pub open spec fn spec_distinct(s: Seq<Seq<char>>) -> bool {
    forall|i: int, j: int| 0 <= i < j < s.len() ==> s[i] != s[j]
}

/// Whether a batch of symbols is internally collision-free and disjoint from
/// an existing table.
pub open spec fn spec_claim_ok(table: Seq<Seq<char>>, syms: Seq<Seq<char>>) -> bool {
    (forall|i: int, j: int| 0 <= i < j < syms.len() ==> syms[i] != syms[j]) && (forall|i: int|
        0 <= i < syms.len() ==> !table.contains(syms[i]))
}

/// The one-time bootstrap artifacts of the reference-counted backend.
#[derive(Debug)]
pub struct SwiftBootstrap {
    pub c_ffi_package: String,
    pub ffi_package: String,
    pub module_map: String,
    pub c_header_base: String,
    pub code_base: String,
}

/// The per-build session.
pub struct Session {
    used_symbols: Vec<String>,
    declared_types: Vec<String>,
    rust_base_emitted: bool,
    swift_bootstrap_emitted: bool,
    swift_header_entries: Vec<String>,
    package_name: String,
}

impl Session {
    /// Every exported symbol claimed so far, the reserved runtime symbols
    /// first.
    pub closed spec fn symbols(&self) -> Seq<Seq<char>> {
        self.used_symbols.deep_view()
    }

    /// The names of the struct declarations processed so far.
    pub closed spec fn declared(&self) -> Seq<Seq<char>> {
        self.declared_types.deep_view()
    }

    /// Whether the native runtime base was already handed out.
    pub closed spec fn rust_base_done(&self) -> bool {
        self.rust_base_emitted
    }

    /// Whether the reference-counted backend's bootstrap was already handed
    /// out.
    pub closed spec fn swift_bootstrap_done(&self) -> bool {
        self.swift_bootstrap_emitted
    }

    /// The declaration names whose block was appended to the shared header.
    pub closed spec fn appended(&self) -> Seq<Seq<char>> {
        self.swift_header_entries.deep_view()
    }

    /// The package name the build was opened for.
    pub closed spec fn package(&self) -> Seq<char> {
        self.package_name@
    }

    /// The naming table's guarantee: no two claimed symbols are equal.
    pub open spec fn wf(&self) -> bool {
        spec_distinct(self.symbols())
    }

    /// Opens a build session: the naming table starts with the reserved
    /// runtime symbols, nothing is declared, no bootstrap was handed out.
    pub fn new(package_name: String) -> (s: Session)
        ensures
            s.wf(),
            s.symbols() == spec_reserved_symbols(),
            s.declared() == Seq::<Seq<char>>::empty(),
            !s.rust_base_done(),
            !s.swift_bootstrap_done(),
            s.appended() == Seq::<Seq<char>>::empty(),
            s.package() == package_name@,
    {
        let used = reserved_symbols();
        proof {
            assert(used.deep_view() =~= spec_reserved_symbols());
            lemma_reserved_symbols_distinct();
        }
        Session {
            used_symbols: used,
            declared_types: Vec::new(),
            rust_base_emitted: false,
            swift_bootstrap_emitted: false,
            swift_header_entries: Vec::new(),
            package_name,
        }
    }

    /// Claims a batch of symbols atomically: on success all are appended to
    /// the table; on a collision — within the batch, with a prior claim, or
    /// with a reserved symbol — nothing changes.
    pub fn claim_symbols(&mut self, syms: &Vec<String>) -> (ok: bool)
        requires
            old(self).wf(),
        ensures
            final(self).wf(),
            ok == spec_claim_ok(old(self).symbols(), syms.deep_view()),
            ok ==> final(self).symbols() == old(self).symbols() + syms.deep_view(),
            !ok ==> final(self).symbols() == old(self).symbols(),
            final(self).declared() == old(self).declared(),
            final(self).rust_base_done() == old(self).rust_base_done(),
            final(self).swift_bootstrap_done() == old(self).swift_bootstrap_done(),
            final(self).appended() == old(self).appended(),
            final(self).package() == old(self).package(),
    {
        let ghost table = self.symbols();
        let ghost sv = syms.deep_view();
        let mut i: usize = 0;
        while i < syms.len()
            invariant
                0 <= i <= syms.len(),
                sv == syms.deep_view(),
                sv.len() == syms.len(),
                *self == *old(self),
                old(self).wf(),
                table == self.symbols(),
                forall|k: int| 0 <= k < i ==> !table.contains(sv[k]),
                forall|k1: int, k2: int| 0 <= k1 < k2 < i ==> sv[k1] != sv[k2],
            decreases syms.len() - i,
        {
            proof {
                assert(sv[i as int] == syms@[i as int]@);
            }
            if names_contain(&self.used_symbols, syms[i].as_str()) {
                proof {
                    assert(table.contains(sv[i as int]));
                }
                return false;
            }
            let mut j: usize = 0;
            while j < i
                invariant
                    0 <= j <= i < syms.len(),
                    sv == syms.deep_view(),
                    sv.len() == syms.len(),
                    *self == *old(self),
                    old(self).wf(),
                    forall|k: int| 0 <= k < j ==> sv[k] != sv[i as int],
                decreases i - j,
            {
                proof {
                    assert(sv[j as int] == syms@[j as int]@);
                }
                if crate::naming::str_eq(syms[j].as_str(), syms[i].as_str()) {
                    proof {
                        assert(sv[j as int] == sv[i as int]);
                    }
                    return false;
                }
                j = j + 1;
            }
            i = i + 1;
        }
        proof {
            assert(table + sv.take(0) =~= table);
        }
        let mut k: usize = 0;
        while k < syms.len()
            invariant
                0 <= k <= syms.len(),
                sv == syms.deep_view(),
                sv.len() == syms.len(),
                self.symbols() == table + sv.take(k as int),
                self.declared() == old(self).declared(),
                self.rust_base_done() == old(self).rust_base_done(),
                self.swift_bootstrap_done() == old(self).swift_bootstrap_done(),
                self.appended() == old(self).appended(),
                self.package() == old(self).package(),
            decreases syms.len() - k,
        {
            proof {
                assert(sv[k as int] == syms@[k as int]@);
            }
            let s = syms[k].clone();
            let ghost pre_vec = self.used_symbols@;
            let ghost pre_sym = self.symbols();
            self.used_symbols.push(s);
            proof {
                assert(self.used_symbols@ =~= pre_vec.push(s));
                assert forall|m: int|
                    0 <= m < self.symbols().len() implies self.symbols()[m] == pre_sym.push(
                    sv[k as int],
                )[m] by {
                    assert(self.symbols()[m] == self.used_symbols@[m].deep_view());
                    if m < pre_sym.len() {
                        assert(self.used_symbols@[m] == pre_vec[m]);
                        assert(pre_sym[m] == pre_vec[m].deep_view());
                    } else {
                        assert(self.used_symbols@[m] == s);
                        assert(s@ == sv[k as int]);
                    }
                }
                assert(self.symbols() =~= pre_sym.push(sv[k as int]));
                assert(sv.take(k + 1) =~= sv.take(k as int).push(sv[k as int]));
                assert(pre_sym.push(sv[k as int]) =~= table + sv.take(k + 1));
            }
            k = k + 1;
        }
        proof {
            assert(sv.take(sv.len() as int) =~= sv);
            let new_table = table + sv;
            assert forall|a: int, b: int|
                0 <= a < b < new_table.len() implies #[trigger] new_table[a] != #[trigger] new_table[b] by {
                if b < table.len() {
                    assert(new_table[a] == table[a]);
                    assert(new_table[b] == table[b]);
                } else if a >= table.len() {
                    assert(new_table[a] == sv[a - table.len()]);
                    assert(new_table[b] == sv[b - table.len()]);
                } else {
                    assert(new_table[a] == table[a]);
                    assert(new_table[b] == sv[b - table.len()]);
                    assert(!table.contains(sv[b - table.len()]));
                    if new_table[a] == new_table[b] {
                        assert(table.contains(sv[b - table.len()]));
                    }
                }
            }
        }
        true
    }

    /// Records a struct declaration's name, making it available as an opaque
    /// field type for later declarations.
    pub fn declare_type(&mut self, name: &str)
        requires
            old(self).wf(),
        ensures
            final(self).wf(),
            final(self).declared() == old(self).declared().push(name@),
            final(self).symbols() == old(self).symbols(),
            final(self).rust_base_done() == old(self).rust_base_done(),
            final(self).swift_bootstrap_done() == old(self).swift_bootstrap_done(),
            final(self).appended() == old(self).appended(),
            final(self).package() == old(self).package(),
    {
        let owned: String = name.to_owned();
        self.declared_types.push(owned);
        proof {
            assert(self.declared() =~= old(self).declared().push(name@));
        }
    }

    /// Whether a type name was declared earlier in this build.
    pub fn is_declared(&self, name: &str) -> (r: bool)
        ensures
            r == self.declared().contains(name@),
    {
        names_contain(&self.declared_types, name)
    }

    /// Hands out the native runtime base exactly once per build: the first
    /// call returns it, every later call returns nothing.
    pub fn rust_bootstrap(&mut self) -> (r: Option<String>)
        requires
            old(self).wf(),
        ensures
            final(self).wf(),
            old(self).rust_base_done() ==> r is None,
            !old(self).rust_base_done() ==> (r matches Option::Some(t) && t@
                == spec_rust_code_base()),
            final(self).rust_base_done(),
            final(self).symbols() == old(self).symbols(),
            final(self).declared() == old(self).declared(),
            final(self).swift_bootstrap_done() == old(self).swift_bootstrap_done(),
            final(self).appended() == old(self).appended(),
            final(self).package() == old(self).package(),
    {
        if self.rust_base_emitted {
            Option::None
        } else {
            self.rust_base_emitted = true;
            Option::Some(rust_code_base())
        }
    }

    /// Hands out the reference-counted backend's bootstrap artifacts exactly
    /// once per build, first-writer-wins: the first call returns them all,
    /// every later call returns nothing.
    pub fn swift_bootstrap(&mut self) -> (r: Option<SwiftBootstrap>)
        requires
            old(self).wf(),
        ensures
            final(self).wf(),
            old(self).swift_bootstrap_done() ==> r is None,
            !old(self).swift_bootstrap_done() ==> (r matches Option::Some(b) && b.c_ffi_package@
                == spec_swift_c_ffi_package_definition() && b.ffi_package@
                == spec_swift_ffi_package_definition() && b.module_map@ == spec_clang_module_map(
                old(self).package(),
            ) && b.c_header_base@ == spec_swift_c_header_code_base() && b.code_base@
                == spec_swift_code_base()),
            final(self).swift_bootstrap_done(),
            final(self).symbols() == old(self).symbols(),
            final(self).declared() == old(self).declared(),
            final(self).rust_base_done() == old(self).rust_base_done(),
            final(self).appended() == old(self).appended(),
            final(self).package() == old(self).package(),
    {
        if self.swift_bootstrap_emitted {
            Option::None
        } else {
            self.swift_bootstrap_emitted = true;
            Option::Some(
                SwiftBootstrap {
                    c_ffi_package: swift_c_ffi_package_definition(),
                    ffi_package: swift_ffi_package_definition(),
                    module_map: clang_module_map(self.package_name.as_str()),
                    c_header_base: swift_c_header_code_base(),
                    code_base: swift_code_base(),
                },
            )
        }
    }

    /// Records that a declaration's block joins the shared header.  Returns
    /// whether the block is new; a block already appended under the same
    /// name is never appended again.
    pub fn append_swift_header(&mut self, name: &str) -> (fresh: bool)
        requires
            old(self).wf(),
        ensures
            final(self).wf(),
            fresh == !old(self).appended().contains(name@),
            fresh ==> final(self).appended() == old(self).appended().push(name@),
            !fresh ==> final(self).appended() == old(self).appended(),
            final(self).symbols() == old(self).symbols(),
            final(self).declared() == old(self).declared(),
            final(self).rust_base_done() == old(self).rust_base_done(),
            final(self).swift_bootstrap_done() == old(self).swift_bootstrap_done(),
            final(self).package() == old(self).package(),
    {
        if names_contain(&self.swift_header_entries, name) {
            false
        } else {
            let owned: String = name.to_owned();
            self.swift_header_entries.push(owned);
            proof {
                assert(self.appended() =~= old(self).appended().push(name@));
            }
            true
        }
    }
}

/// The reserved runtime symbols are pairwise distinct.
proof fn lemma_reserved_symbols_distinct()
    ensures
        spec_distinct(spec_reserved_symbols()),
{
    reveal_strlit("__hiFfi__$slice_len");
    reveal_strlit("__hiFfi__$slice_ptr");
    reveal_strlit("__hiFfi__$slice_drop");
    reveal_strlit("__hiFfi__$rust_string_drop");
    reveal_strlit("__hiFfi__$rust_string_data");
    reveal_strlit("__hiFfi__$rust_string_len");
    let rs = spec_reserved_symbols();
    assert(("__hiFfi__$slice_len"@).len() == 19);
    assert(("__hiFfi__$slice_ptr"@).len() == 19);
    assert(("__hiFfi__$slice_drop"@).len() == 20);
    assert(("__hiFfi__$rust_string_drop"@).len() == 26);
    assert(("__hiFfi__$rust_string_data"@).len() == 26);
    assert(("__hiFfi__$rust_string_len"@).len() == 25);
    assert(rs[0] != rs[1]) by {
        assert(("__hiFfi__$slice_len"@)[16] != ("__hiFfi__$slice_ptr"@)[16]);
    }
    assert(rs[3] != rs[4]) by {
        assert(("__hiFfi__$rust_string_drop"@)[23] != ("__hiFfi__$rust_string_data"@)[23]);
    }
    assert(rs[0] != rs[2]);
    assert(rs[0] != rs[3]);
    assert(rs[0] != rs[4]);
    assert(rs[0] != rs[5]);
    assert(rs[1] != rs[2]);
    assert(rs[1] != rs[3]);
    assert(rs[1] != rs[4]);
    assert(rs[1] != rs[5]);
    assert(rs[2] != rs[3]);
    assert(rs[2] != rs[4]);
    assert(rs[2] != rs[5]);
    assert(rs[3] != rs[5]);
    assert(rs[4] != rs[5]);
    assert forall|i: int, j: int| 0 <= i < j < rs.len() implies #[trigger] rs[i] != #[trigger] rs[j] by {
        assert(rs.len() == 6);
    }
}

} // verus!
