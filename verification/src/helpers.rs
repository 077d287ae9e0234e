use vstd::laws_eq::obeys_concrete_eq;
use vstd::prelude::*;
use vstd::string::StringSliceAdditionalSpecFns;

verus! {

/// `String::push` of the standard library appends one character to the end
/// of the string, as its documentation says.
pub assume_specification[ String::push ](s: &mut String, ch: char)
    ensures
        final(s)@ == old(s)@.push(ch),
;

/// Whether the character with this number is white space: a tab, a line
/// feed, a vertical tab, a form feed, a carriage return, a space, a next-line
/// mark or a no-break space.
pub open spec fn spec_is_whitespace(byte: u8) -> bool {
    9 <= byte <= 13 || byte == 32 || byte == 0x85 || byte == 0xA0
}

pub fn is_whitespace(byte: u8) -> (white: bool)
    ensures
        white == spec_is_whitespace(byte),
{
    (9 <= byte && byte <= 13) || byte == 32 || byte == 0x85 || byte == 0xA0
}

/// The number of the lower-case form of the character with this number: 32
/// more for the capital letters, with or without an accent, and the number
/// itself for every other character.
pub open spec fn spec_lowercase(byte: u8) -> u8 {
    if 0x41 <= byte <= 0x5A || 0xC0 <= byte <= 0xD6 || 0xD8 <= byte <= 0xDE {
        (byte + 32) as u8
    } else {
        byte
    }
}

pub fn lowercase(byte: u8) -> (lower: u8)
    ensures
        lower == spec_lowercase(byte),
{
    if (0x41 <= byte && byte <= 0x5A) || (0xC0 <= byte && byte <= 0xD6) || (0xD8 <= byte && byte
        <= 0xDE) {
        byte + 32
    } else {
        byte
    }
}

/// The characters that a name is told by: each byte that is not white space
/// is taken for the character with its number, in its lower-case form.
pub open spec fn normalized(bytes: Seq<u8>) -> Seq<char> {
    bytes.filter(|byte: u8| !spec_is_whitespace(byte)).map_values(
        |byte: u8| spec_lowercase(byte) as char,
    )
}

/// The text without white space and in lower case, read byte by byte.
pub fn lowercase_no_whitespace(s: &str) -> (lowered: String)
    ensures
        lowered@ == normalized(s.spec_bytes()),
{
    let bytes = s.as_bytes();
    let mut lowered = String::new();
    let mut i: usize = 0;
    assert(bytes@.take(0) =~= Seq::<u8>::empty());
    while i < bytes.len()
        invariant
            i <= bytes.len(),
            lowered@ == normalized(bytes@.take(i as int)),
        decreases bytes.len() - i,
    {
        let byte = bytes[i];
        proof {
            let before = bytes@.take(i as int);
            assert(bytes@.take(i as int + 1) =~= before.push(byte));
            before.lemma_filter_push(byte, |byte: u8| !spec_is_whitespace(byte));
            let kept = before.filter(|byte: u8| !spec_is_whitespace(byte));
            assert(kept.push(byte).map_values(|byte: u8| spec_lowercase(byte) as char)
                =~= kept.map_values(|byte: u8| spec_lowercase(byte) as char).push(
                spec_lowercase(byte) as char,
            ));
        }
        if !is_whitespace(byte) {
            lowered.push(lowercase(byte) as char);
        }
        i += 1;
    }
    assert(bytes@.take(i as int) =~= bytes@);
    lowered
}

/// Lists that may hold an item twice.
pub trait HasDuplicates {
    /// Whether `==` on the items tells exactly the equal items apart from the
    /// others.
    spec fn comparable() -> bool;

    /// Whether some item is in the list at two places.
    spec fn spec_has_duplicates(&self) -> bool;

    fn has_duplicates(&self) -> (duplicates: bool)
        ensures
            Self::comparable() ==> duplicates == self.spec_has_duplicates(),
    ;
}

impl<T: PartialEq> HasDuplicates for Vec<T> {
    open spec fn comparable() -> bool {
        obeys_concrete_eq::<T>()
    }

    open spec fn spec_has_duplicates(&self) -> bool {
        exists|i: int, j: int| 0 <= i < j < self@.len() && #[trigger] self@[i] == #[trigger] self@[j]
    }

    fn has_duplicates(&self) -> (duplicates: bool) {
        let mut j: usize = 0;
        while j < self.len()
            invariant
                j <= self.len(),
                obeys_concrete_eq::<T>() ==> forall|a: int, b: int|
                    0 <= a < b < j ==> #[trigger] self@[a] != #[trigger] self@[b],
            decreases self.len() - j,
        {
            let mut i: usize = 0;
            while i < j
                invariant
                    i <= j < self.len(),
                    obeys_concrete_eq::<T>() ==> forall|a: int|
                        0 <= a < i ==> #[trigger] self@[a] != self@[j as int],
                decreases j - i,
            {
                proof {
                    reveal(obeys_concrete_eq);
                }
                if self[i] == self[j] {
                    return true;
                }
                i += 1;
            }
            j += 1;
        }
        false
    }
}

} // verus!
