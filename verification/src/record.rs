//! Generated records: a numbered item with a name and a value that both
//! follow from its identifier.

use vstd::prelude::*;
use vstd::arithmetic::power2::pow2;
use crate::double::{finite, lemma_magnitude_injective, magnitude, negative, three_halves};
use crate::text::{append_decimal, decimal};

verus! {

/// A generated record. `value` holds the bits of a double.
#[derive(Clone, Debug, PartialEq, Eq)]
pub struct TestData {
    pub id: u32,
    pub name: String,
    pub value: u64,
}

/// The name of the record with the given identifier: `Item ` and the
/// identifier's decimal numeral.
pub open spec fn item_name(id: u32) -> Seq<char> {
    "Item "@ + decimal(id as nat)
}

/// Whether `bits` is the double that is exactly one and a half times `id`.
pub open spec fn item_value(id: u32, bits: u64) -> bool {
    &&& !negative(bits)
    &&& finite(bits)
    &&& 2 * magnitude(bits) == 3 * id * pow2(1074)
}

/// The identifier of the record at a 1-based position: the position itself
/// as far as 32 bits hold it, and its low 32 bits beyond that.
pub open spec fn identifier(position: nat) -> u32 {
    (position % 0x1_0000_0000) as u32
}

impl TestData {
    /// A record is well formed when its name and its value are those of its
    /// identifier.
    pub open spec fn wf(&self) -> bool {
        &&& self.name@ == item_name(self.id)
        &&& item_value(self.id, self.value)
    }

    /// The record with the given identifier.
    pub fn new(id: u32) -> (item: TestData)
        ensures
            item.id == id,
            item.wf(),
    {
        let mut name = String::from_str("Item ");
        append_decimal(&mut name, id as u64);
        TestData { id, name, value: three_halves(id) }
    }
}

/// An identifier has one value and no other: two well-formed records with
/// the same identifier agree in name and in value.
pub proof fn lemma_record_determined(a: TestData, b: TestData)
    requires
        a.wf(),
        b.wf(),
        a.id == b.id,
    ensures
        a.name@ == b.name@,
        a.value == b.value,
{
    lemma_magnitude_injective(a.value, b.value);
}

/// Whether `items` is the batch of `count` records: the record at each
/// 1-based position is well formed and carries that position's identifier.
pub open spec fn generated(items: Seq<TestData>, count: nat) -> bool {
    &&& items.len() == count
    &&& forall|k: int|
        0 <= k < count ==> (#[trigger] items[k]).id == identifier((k + 1) as nat) && items[k].wf()
}

/// Generates `count` records, numbered from 1 in order.
pub fn generate(count: usize) -> (items: Vec<TestData>)
    ensures
        generated(items@, count as nat),
{
    let mut items: Vec<TestData> = Vec::new();
    let mut made: usize = 0;
    while made < count
        invariant
            made <= count,
            generated(items@, made as nat),
        decreases count - made,
    {
        made = made + 1;
        let wide: u64 = made as u64;
        let id: u32 = #[verifier::truncate] (wide as u32);
        assert(id == identifier(made as nat)) by {
            assert(wide as u32 == wide % 0x1_0000_0000) by (bit_vector);
        }
        items.push(TestData::new(id));
    }
    items
}

/// While the count fits in 32 bits, the identifiers are 1, 2, 3 and so on in
/// order, without a gap or a repeat.
pub proof fn lemma_identifiers_sequential(items: Seq<TestData>, count: nat)
    requires
        generated(items, count),
        count <= u32::MAX,
    ensures
        forall|k: int| 0 <= k < count ==> (#[trigger] items[k]).id == k + 1,
{
    assert forall|k: int| 0 <= k < count implies (#[trigger] items[k]).id == k + 1 by {
        assert(items[k].id == identifier((k + 1) as nat));
    }
}

} // verus!
