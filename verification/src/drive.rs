//! Choice of a free drive letter, for the host whose paths must stay short:
//! the working directory is mapped onto the letter for the time of a build.

use vstd::prelude::*;

verus! {

/// The number of drive letters.
pub const LETTERS: u32 = 26;

/// Whether the drive with the given index (`0` for `A`) is taken, by the mask
/// of the drives in use.
pub open spec fn in_use(mask: u32, index: int) -> bool {
    0 <= index < 32 && (mask >> (index as u32)) & 1 == 1
}

/// The drive letter with the given index.
pub open spec fn letter(index: int) -> char
    recommends
        0 <= index < 26,
{
    (65 + index) as u8 as char
}

/// The index of the first free drive from `from` on, if there is one.
pub open spec fn first_free_from(mask: u32, from: int) -> Option<int>
    decreases 26 - from,
{
    if from < 0 || from >= 26 {
        None
    } else if !in_use(mask, from) {
        Some(from)
    } else {
        first_free_from(mask, from + 1)
    }
}

/// The free drive letters below the index `until`, in alphabetical order.
pub open spec fn free_letters(mask: u32, until: int) -> Seq<char>
    decreases until,
{
    if until <= 0 {
        Seq::empty()
    } else if in_use(mask, until - 1) {
        free_letters(mask, until - 1)
    } else {
        free_letters(mask, until - 1).push(letter(until - 1))
    }
}

/// The drive letter that a build is given: the first free one in the
/// alphabet, if any is free.
pub open spec fn spec_allocate(mask: u32) -> Option<char> {
    match first_free_from(mask, 0) {
        Some(index) => Some(letter(index)),
        None => None,
    }
}

/// What `first_free_from` finds is the least free index from `from` on, and
/// it finds none only where every drive from `from` on is taken.
pub proof fn lemma_first_free(mask: u32, from: int)
    requires
        0 <= from <= 26,
    ensures
        match first_free_from(mask, from) {
            Some(index) => from <= index < 26 && !in_use(mask, index) && forall|other: int|
                from <= other < index ==> in_use(mask, other),
            None => forall|other: int| from <= other < 26 ==> in_use(mask, other),
        },
    decreases 26 - from,
{
    if from < 26 && in_use(mask, from) {
        lemma_first_free(mask, from + 1);
    }
}

/// With every letter taken no drive is given; with any letter free, the
/// earliest free letter of the alphabet is given, and the same one each time.
pub proof fn lemma_allocation(mask: u32)
    ensures
        (forall|index: int| 0 <= index < 26 ==> in_use(mask, index)) ==> spec_allocate(mask)
            is None,
        forall|index: int|
            0 <= index < 26 && !in_use(mask, index) ==> exists|first: int|
                0 <= first <= index && !in_use(mask, first) && (forall|other: int|
                    0 <= other < first ==> in_use(mask, other)) && spec_allocate(mask) == Some(
                    #[trigger] letter(first),
                ),
{
    lemma_first_free(mask, 0);
    assert forall|index: int| 0 <= index < 26 && !in_use(mask, index) implies exists|first: int|
        0 <= first <= index && !in_use(mask, first) && (forall|other: int|
            0 <= other < first ==> in_use(mask, other)) && spec_allocate(mask) == Some(
            #[trigger] letter(first),
        ) by {
        let first = first_free_from(mask, 0)->Some_0;
        if first > index {
            assert(in_use(mask, index));
        }
        assert(spec_allocate(mask) == Some(letter(first)));
    }
}

/// Whether the drive with the given index is taken.
pub fn drive_in_use(mask: u32, index: u32) -> (r: bool)
    requires
        index < 32,
    ensures
        r == in_use(mask, index as int),
{
    (mask >> index) & 1 == 1
}

/// The drive letter with the given index.
pub fn drive_letter(index: u32) -> (r: char)
    requires
        index < 26,
    ensures
        r == letter(index as int),
{
    let code: u8 = 65 + index as u8;
    code as char
}

/// The free drive letters, in alphabetical order.
pub fn unused_drive_letters(mask: u32) -> (r: Vec<char>)
    ensures
        r@ == free_letters(mask, 26),
{
    let mut free: Vec<char> = Vec::new();
    let mut index: u32 = 0;
    while index < LETTERS
        invariant
            index <= 26,
            free@ == free_letters(mask, index as int),
        decreases 26 - index,
    {
        if !drive_in_use(mask, index) {
            free.push(drive_letter(index));
        }
        index = index + 1;
    }
    free
}

/// The drive letter for a build: the first free one in the alphabet, or
/// `None` where all of them are taken.
pub fn first_unused_drive_letter(mask: u32) -> (r: Option<char>)
    ensures
        r == spec_allocate(mask),
{
    let mut index: u32 = 0;
    while index < LETTERS
        invariant
            index <= 26,
            first_free_from(mask, 0) == first_free_from(mask, index as int),
        decreases 26 - index,
    {
        if !drive_in_use(mask, index) {
            return Some(drive_letter(index));
        }
        index = index + 1;
    }
    None
}

} // verus!
