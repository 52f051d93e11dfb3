//! The option set accepted by a compilation request.
//!
//! A value stands for a mathematical set of named options. Towards the native
//! interface the set is written as a bit mask, one bit for each option.

use vstd::prelude::*;

verus! {

/// One option of a compilation request.
#[derive(Clone, Copy, Debug, PartialEq, Eq, Structural)]
pub enum CompileOption {
    /// Ask the back end for debug information.
    GenerateDebugInfo,
    /// Embed the source text in the module. Implies `GenerateDebugInfo`.
    AddOpSource,
}

/// Mask bit of `CompileOption::GenerateDebugInfo`.
pub const GENERATE_DEBUG_INFO_BIT: u32 = 1;

/// Mask bit of `CompileOption::AddOpSource`.
pub const ADD_OP_SOURCE_BIT: u32 = 2;

/// Every bit that has a meaning.
pub const ALL_BITS: u32 = 3;

/// The mask bit that stands for an option.
pub open spec fn bit_of(option: CompileOption) -> u32 {
    match option {
        CompileOption::GenerateDebugInfo => GENERATE_DEBUG_INFO_BIT,
        CompileOption::AddOpSource => ADD_OP_SOURCE_BIT,
    }
}

/// The set of options that a mask stands for.
pub open spec fn options_of(bits: u32) -> Set<CompileOption> {
    Set::new(|option: CompileOption| bits & bit_of(option) != 0)
}

/// The mask that stands for a set of options.
pub open spec fn mask_of(options: Set<CompileOption>) -> u32 {
    let low: u32 = if options.contains(CompileOption::GenerateDebugInfo) {
        GENERATE_DEBUG_INFO_BIT
    } else {
        0
    };
    let high: u32 = if options.contains(CompileOption::AddOpSource) {
        ADD_OP_SOURCE_BIT
    } else {
        0
    };
    low | high
}

/// A mask holds named bits only.
pub open spec fn is_named_mask(bits: u32) -> bool {
    bits & !ALL_BITS == 0
}

/// A mask of named bits is one of the four masks, and each of them is the mask
/// of the set that it stands for.
pub proof fn lemma_named_masks(bits: u32)
    requires
        is_named_mask(bits),
    ensures
        bits == 0 || bits == 1 || bits == 2 || bits == 3,
        mask_of(options_of(bits)) == bits,
{
    assert(bits & !3u32 == 0 ==> bits == 0 || bits == 1 || bits == 2 || bits == 3)
        by (bit_vector);
    assert(0u32 & 1 == 0 && 0u32 & 2 == 0 && 0u32 | 0 == 0) by (bit_vector);
    assert(1u32 & 1 == 1 && 1u32 & 2 == 0 && 1u32 | 0 == 1) by (bit_vector);
    assert(2u32 & 1 == 0 && 2u32 & 2 == 2 && 0u32 | 2 == 2) by (bit_vector);
    assert(3u32 & 1 == 1 && 3u32 & 2 == 2 && 1u32 | 2 == 3) by (bit_vector);
}

/// The mask of any set of options holds named bits only, and stands for that
/// set.
pub proof fn lemma_mask_of_set(options: Set<CompileOption>)
    ensures
        is_named_mask(mask_of(options)),
        options_of(mask_of(options)) =~= options,
{
    let bits = mask_of(options);
    assert(0u32 | 0 == 0 && 1u32 | 0 == 1 && 0u32 | 2 == 2 && 1u32 | 2 == 3) by (bit_vector);
    assert(0u32 & !3u32 == 0 && 1u32 & !3u32 == 0 && 2u32 & !3u32 == 0 && 3u32 & !3u32 == 0)
        by (bit_vector);
    assert(0u32 & 1 == 0 && 0u32 & 2 == 0) by (bit_vector);
    assert(1u32 & 1 == 1 && 1u32 & 2 == 0) by (bit_vector);
    assert(2u32 & 1 == 0 && 2u32 & 2 == 2) by (bit_vector);
    assert(3u32 & 1 == 1 && 3u32 & 2 == 2) by (bit_vector);
    assert forall|option: CompileOption|
        options_of(bits).contains(option) == options.contains(option) by {
        match option {
            CompileOption::GenerateDebugInfo => {},
            CompileOption::AddOpSource => {},
        }
    }
}

/// A set of compile options.
#[derive(Clone, Copy, Debug, PartialEq, Eq, Structural)]
pub struct CompileOptionFlags {
    generate_debug_info: bool,
    add_op_source: bool,
}

impl View for CompileOptionFlags {
    type V = Set<CompileOption>;

    closed spec fn view(&self) -> Set<CompileOption> {
        Set::new(
            |option: CompileOption|
                match option {
                    CompileOption::GenerateDebugInfo => self.generate_debug_info,
                    CompileOption::AddOpSource => self.add_op_source,
                },
        )
    }
}

impl CompileOptionFlags {
    /// Two values that hold the same options are the same value.
    pub proof fn lemma_ext_equal(self, other: Self)
        requires
            self@ =~= other@,
        ensures
            self == other,
    {
        assert(self@.contains(CompileOption::GenerateDebugInfo) == other@.contains(
            CompileOption::GenerateDebugInfo,
        ));
        assert(self@.contains(CompileOption::AddOpSource) == other@.contains(
            CompileOption::AddOpSource,
        ));
    }

    /// The set without any option.
    pub fn empty() -> (r: Self)
        ensures
            r@ =~= Set::<CompileOption>::empty(),
    {
        CompileOptionFlags { generate_debug_info: false, add_op_source: false }
    }

    /// The set of every option.
    pub fn all() -> (r: Self)
        ensures
            r@ =~= Set::<CompileOption>::full(),
    {
        let r = CompileOptionFlags { generate_debug_info: true, add_op_source: true };
        proof {
            assert forall|option: CompileOption| r@.contains(option) by {
                match option {
                    CompileOption::GenerateDebugInfo => {},
                    CompileOption::AddOpSource => {},
                }
            }
        }
        r
    }

    /// The set that holds `GenerateDebugInfo` alone.
    pub fn generate_debug_info() -> (r: Self)
        ensures
            r@ =~= set![CompileOption::GenerateDebugInfo],
    {
        CompileOptionFlags { generate_debug_info: true, add_op_source: false }
    }

    /// The set that holds `AddOpSource` alone.
    pub fn add_op_source() -> (r: Self)
        ensures
            r@ =~= set![CompileOption::AddOpSource],
    {
        CompileOptionFlags { generate_debug_info: false, add_op_source: true }
    }

    /// Whether one option is in the set.
    pub fn has(&self, option: CompileOption) -> (r: bool)
        ensures
            r == self@.contains(option),
    {
        match option {
            CompileOption::GenerateDebugInfo => self.generate_debug_info,
            CompileOption::AddOpSource => self.add_op_source,
        }
    }

    /// The mask that stands for the set.
    pub fn bits(&self) -> (r: u32)
        ensures
            r == mask_of(self@),
            is_named_mask(r),
            options_of(r) =~= self@,
    {
        proof {
            lemma_mask_of_set(self@);
        }
        let low: u32 = if self.generate_debug_info {
            GENERATE_DEBUG_INFO_BIT
        } else {
            0
        };
        let high: u32 = if self.add_op_source {
            ADD_OP_SOURCE_BIT
        } else {
            0
        };
        low | high
    }

    /// The set that a mask stands for, if the mask holds named bits only.
    pub fn from_bits(bits: u32) -> (r: Option<Self>)
        ensures
            r is Some <==> is_named_mask(bits),
            r is Some ==> r->Some_0@ =~= options_of(bits) && mask_of(r->Some_0@) == bits,
    {
        if bits & !ALL_BITS == 0 {
            let r = Self::from_bits_truncate(bits);
            proof {
                lemma_named_masks(bits);
            }
            Some(r)
        } else {
            None
        }
    }

    /// The set that the named bits of a mask stand for; other bits are dropped.
    pub fn from_bits_truncate(bits: u32) -> (r: Self)
        ensures
            r@ =~= options_of(bits),
            mask_of(r@) == bits & ALL_BITS,
    {
        let r = CompileOptionFlags {
            generate_debug_info: bits & GENERATE_DEBUG_INFO_BIT != 0,
            add_op_source: bits & ADD_OP_SOURCE_BIT != 0,
        };
        proof {
            assert forall|option: CompileOption|
                r@.contains(option) == options_of(bits).contains(option) by {
                match option {
                    CompileOption::GenerateDebugInfo => {},
                    CompileOption::AddOpSource => {},
                }
            }
            assert(r@ =~= options_of(bits));
            let low: u32 = if bits & 1 != 0 {
                1
            } else {
                0
            };
            let high: u32 = if bits & 2 != 0 {
                2
            } else {
                0
            };
            assert(low | high == bits & 3u32) by (bit_vector)
                requires
                    low == (if bits & 1 != 0 {
                        1u32
                    } else {
                        0u32
                    }),
                    high == (if bits & 2 != 0 {
                        2u32
                    } else {
                        0u32
                    }),
            ;
        }
        r
    }

    /// Whether the set holds no option.
    pub fn is_empty(&self) -> (r: bool)
        ensures
            r == (self@ =~= Set::<CompileOption>::empty()),
    {
        proof {
            if self.generate_debug_info {
                assert(self@.contains(CompileOption::GenerateDebugInfo));
            }
            if self.add_op_source {
                assert(self@.contains(CompileOption::AddOpSource));
            }
        }
        !self.generate_debug_info && !self.add_op_source
    }

    /// Whether the set holds every option.
    pub fn is_all(&self) -> (r: bool)
        ensures
            r == (self@ =~= Set::<CompileOption>::full()),
    {
        proof {
            if self.generate_debug_info && self.add_op_source {
                assert forall|option: CompileOption| self@.contains(option) by {
                    match option {
                        CompileOption::GenerateDebugInfo => {},
                        CompileOption::AddOpSource => {},
                    }
                }
            } else if !self.generate_debug_info {
                assert(!self@.contains(CompileOption::GenerateDebugInfo));
            } else {
                assert(!self@.contains(CompileOption::AddOpSource));
            }
        }
        self.generate_debug_info && self.add_op_source
    }

    /// Whether every option of `other` is in the set.
    pub fn contains(&self, other: Self) -> (r: bool)
        ensures
            r == other@.subset_of(self@),
    {
        let r = (!other.generate_debug_info || self.generate_debug_info) && (!other.add_op_source
            || self.add_op_source);
        proof {
            if r {
                assert forall|option: CompileOption| other@.contains(option) implies self@.contains(
                    option,
                ) by {
                    match option {
                        CompileOption::GenerateDebugInfo => {},
                        CompileOption::AddOpSource => {},
                    }
                }
            } else if other.generate_debug_info && !self.generate_debug_info {
                assert(other@.contains(CompileOption::GenerateDebugInfo));
                assert(!self@.contains(CompileOption::GenerateDebugInfo));
            } else {
                assert(other@.contains(CompileOption::AddOpSource));
                assert(!self@.contains(CompileOption::AddOpSource));
            }
        }
        r
    }

    /// Whether the set and `other` share an option.
    pub fn intersects(&self, other: Self) -> (r: bool)
        ensures
            r == exists|option: CompileOption| self@.contains(option) && other@.contains(option),
    {
        let r = (self.generate_debug_info && other.generate_debug_info) || (self.add_op_source
            && other.add_op_source);
        proof {
            let shared = exists|option: CompileOption|
                self@.contains(option) && other@.contains(option);
            if self.generate_debug_info && other.generate_debug_info {
                assert(self@.contains(CompileOption::GenerateDebugInfo) && other@.contains(
                    CompileOption::GenerateDebugInfo,
                ));
                assert(shared);
            } else if self.add_op_source && other.add_op_source {
                assert(self@.contains(CompileOption::AddOpSource) && other@.contains(
                    CompileOption::AddOpSource,
                ));
                assert(shared);
            } else {
                assert forall|option: CompileOption|
                    !(self@.contains(option) && other@.contains(option)) by {
                    match option {
                        CompileOption::GenerateDebugInfo => {},
                        CompileOption::AddOpSource => {},
                    }
                }
                assert(!shared);
            }
        }
        r
    }

    /// The options that are in the set or in `other`.
    pub fn union(self, other: Self) -> (r: Self)
        ensures
            r@ =~= self@.union(other@),
    {
        let r = CompileOptionFlags {
            generate_debug_info: self.generate_debug_info || other.generate_debug_info,
            add_op_source: self.add_op_source || other.add_op_source,
        };
        proof {
            assert forall|option: CompileOption|
                r@.contains(option) == (self@.contains(option) || other@.contains(option)) by {
                match option {
                    CompileOption::GenerateDebugInfo => {},
                    CompileOption::AddOpSource => {},
                }
            }
        }
        r
    }

    /// The options that are in the set and in `other`.
    pub fn intersection(self, other: Self) -> (r: Self)
        ensures
            r@ =~= self@.intersect(other@),
    {
        let r = CompileOptionFlags {
            generate_debug_info: self.generate_debug_info && other.generate_debug_info,
            add_op_source: self.add_op_source && other.add_op_source,
        };
        proof {
            assert forall|option: CompileOption|
                r@.contains(option) == (self@.contains(option) && other@.contains(option)) by {
                match option {
                    CompileOption::GenerateDebugInfo => {},
                    CompileOption::AddOpSource => {},
                }
            }
        }
        r
    }

    /// Adds the options of `other` to the set.
    pub fn insert(&mut self, other: Self)
        ensures
            final(self)@ =~= old(self)@.union(other@),
    {
        let joined = self.union(other);
        *self = joined;
    }
}

} // verus!
