//! Arrays of 32-bit numbers as window systems send them: raw bytes in the byte
//! order of the machine.
use vstd::prelude::*;

verus! {

/// The number that four bytes hold.
pub open spec fn word(bytes: Seq<u8>, little_endian: bool) -> u32 {
    if little_endian {
        (bytes[0] + bytes[1] * 0x100 + bytes[2] * 0x1_0000 + bytes[3] * 0x100_0000) as u32
    } else {
        (bytes[3] + bytes[2] * 0x100 + bytes[1] * 0x1_0000 + bytes[0] * 0x100_0000) as u32
    }
}

/// The numbers in an array of bytes; bytes left over at the end do not count.
pub open spec fn words(bytes: Seq<u8>, little_endian: bool) -> Seq<u32> {
    Seq::new(
        bytes.len() / 4,
        |i: int| word(bytes.subrange(4 * i, 4 * i + 4), little_endian),
    )
}

/// Reads the numbers in an array of bytes.
pub fn read_words(bytes: &[u8], little_endian: bool) -> (numbers: Vec<u32>)
    ensures
        numbers@ == words(bytes@, little_endian),
{
    let mut numbers: Vec<u32> = Vec::new();
    let size: usize = bytes.len();
    let count: usize = size / 4;
    let mut i: usize = 0;
    while i < count
        invariant
            i <= count,
            size == bytes@.len(),
            count == size / 4,
            numbers@.len() == i,
            forall|j: int| 0 <= j < i ==> numbers@[j] == words(bytes@, little_endian)[j],
        decreases count - i,
    {
        assert(4 * i + 4 <= size);
        let a = bytes[4 * i] as u32;
        let b = bytes[4 * i + 1] as u32;
        let c = bytes[4 * i + 2] as u32;
        let d = bytes[4 * i + 3] as u32;
        let number: u32 = if little_endian {
            a + b * 0x100 + c * 0x1_0000 + d * 0x100_0000
        } else {
            d + c * 0x100 + b * 0x1_0000 + a * 0x100_0000
        };
        assert(number == word(bytes@.subrange(4 * i as int, 4 * i + 4), little_endian));
        numbers.push(number);
        i = i + 1;
    }
    assert(numbers@ =~= words(bytes@, little_endian));
    numbers
}

/// Whether a number occurs in an array of bytes.
pub fn holds_word(bytes: &[u8], wanted: u32, little_endian: bool) -> (found: bool)
    ensures
        found == words(bytes@, little_endian).contains(wanted),
{
    let numbers = read_words(bytes, little_endian);
    let mut i: usize = 0;
    while i < numbers.len()
        invariant
            i <= numbers@.len(),
            numbers@ == words(bytes@, little_endian),
            forall|j: int| 0 <= j < i ==> numbers@[j] != wanted,
        decreases numbers@.len() - i,
    {
        if numbers[i] == wanted {
            assert(words(bytes@, little_endian)[i as int] == wanted);
            return true;
        }
        i = i + 1;
    }
    false
}

/// A number holds its four bytes from the lowest to the highest in the order of the
/// machine, and there is one for every four bytes.
pub proof fn law_words_hold_their_bytes(bytes: &[u8], little: Vec<u32>, big: Vec<u32>, i: int)
    requires
        call_ensures(read_words, (bytes, true), little),
        call_ensures(read_words, (bytes, false), big),
    ensures
        little@ == words(bytes@, true) && big@ == words(bytes@, false),
        little@.len() == bytes@.len() / 4 && big@.len() == bytes@.len() / 4,
        0 <= i < bytes@.len() / 4 ==> {
            let n = little@[i];
            &&& n % 0x100 == bytes@[4 * i]
            &&& n / 0x100 % 0x100 == bytes@[4 * i + 1]
            &&& n / 0x1_0000 % 0x100 == bytes@[4 * i + 2]
            &&& n / 0x100_0000 == bytes@[4 * i + 3]
        },
        0 <= i < bytes@.len() / 4 ==> {
            let n = big@[i];
            &&& n % 0x100 == bytes@[4 * i + 3]
            &&& n / 0x100 % 0x100 == bytes@[4 * i + 2]
            &&& n / 0x1_0000 % 0x100 == bytes@[4 * i + 1]
            &&& n / 0x100_0000 == bytes@[4 * i]
        },
{
}

/// A number is held exactly if it is one of those read, wherever it stands and
/// whatever stands beside it.
pub proof fn law_held_words_are_read(
    bytes: &[u8],
    wanted: u32,
    little_endian: bool,
    numbers: Vec<u32>,
    found: bool,
)
    requires
        call_ensures(read_words, (bytes, little_endian), numbers),
        call_ensures(holds_word, (bytes, wanted, little_endian), found),
    ensures
        found <==> exists|i: int| 0 <= i < numbers@.len() && numbers@[i] == wanted,
{
}

} // verus!
