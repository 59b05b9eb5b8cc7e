//! Device-tree nodes.
//!
//! Nodes come from the `fdt_edit` crate. To the drivers a node is a map from
//! property names to bytes; this module reads numbers and strings out of it.

use vstd::prelude::*;
use fdt_edit::Node;

verus! {

/// The `fdt_edit` node type, which the crate carries and never looks into.
#[verifier::external_type_specification]
#[verifier::external_body]
pub struct ExNode(fdt_edit::Node);

/// What a node holds: the bytes of each property, under its name.
pub uninterp spec fn properties(node: fdt_edit::Node) -> Map<Seq<char>, Seq<u8>>;

/// The bytes of a property: `fdt_edit::Node::get_property`, which finds a
/// property by its name.
#[verifier::external_body]
fn get_property(node: &Node, name: &str) -> (data: Option<Vec<u8>>)
    ensures
        data is Some <==> properties(*node).contains_key(name@),
        data matches Some(bytes) ==> bytes@ == properties(*node)[name@],
{
    node.get_property(name).map(|property| property.data.clone())
}

/// The string that a property holds: its bytes up to the NUL at their end, if
/// there is no other NUL and they are UTF-8.
pub open spec fn text(data: Seq<u8>) -> Option<Seq<char>> {
    if data.len() > 0 && data.last() == 0 && !data.drop_last().contains(0) && vstd::utf8::valid_utf8(
        data.drop_last(),
    ) {
        Some(vstd::utf8::decode_utf8(data.drop_last()))
    } else {
        None
    }
}

/// The strings that a property holds, each ended by a NUL. The list ends
/// before the first piece that is not ended or is not UTF-8.
pub open spec fn texts(data: Seq<u8>) -> Seq<Seq<char>>
    decreases data.len(),
{
    match data.index_of_first(0u8) {
        Some(end) => if 0 <= end < data.len() && vstd::utf8::valid_utf8(data.take(end)) {
            seq![vstd::utf8::decode_utf8(data.take(end))] + texts(data.skip(end + 1))
        } else {
            Seq::empty()
        },
        None => Seq::empty(),
    }
}

/// The string in the bytes of a property: `fdt_edit::Property::as_str`, which
/// is `None` unless the bytes are UTF-8 with one NUL, at their end.
#[verifier::external_body]
fn as_str(data: &Vec<u8>) -> (found: Option<String>)
    ensures
        (match found {
            Some(string) => Some(string@),
            None => None,
        }) == text(data@),
{
    fdt_edit::Property::new("", data.clone()).as_str().map(|string| string.to_string())
}

/// The strings in the bytes of a property: `fdt_edit::Property::as_str_iter`,
/// which reads one NUL-ended string after another and stops at the first that
/// it cannot read.
#[verifier::external_body]
fn as_str_iter(data: &Vec<u8>) -> (found: Vec<String>)
    ensures
        found@.len() == texts(data@).len(),
        forall|i: int| 0 <= i < found@.len() ==> (#[trigger] found@[i])@ == texts(data@)[i],
{
    fdt_edit::Property::new("", data.clone()).as_str_iter().map(|string| string.to_string()).collect()
}

/// A node has a property.
pub open spec fn present(node: Node, name: Seq<char>) -> bool {
    properties(node).contains_key(name)
}

/// The number that four bytes stand for, most significant byte first.
pub open spec fn be_u32(bytes: Seq<u8>) -> u32 {
    (bytes[0] * 0x100_0000 + bytes[1] * 0x1_0000 + bytes[2] * 0x100 + bytes[3]) as u32
}

/// The numbers that a property holds: one for each whole group of four bytes.
pub open spec fn cells(data: Seq<u8>) -> Seq<u32> {
    Seq::new(data.len() / 4, |i: int| be_u32(data.subrange(4 * i, 4 * i + 4)))
}

/// The number that a property of exactly four bytes holds.
pub open spec fn number(node: Node, name: Seq<char>) -> Option<u32> {
    if present(node, name) && properties(node)[name].len() == 4 {
        Some(be_u32(properties(node)[name]))
    } else {
        None
    }
}

/// The numbers that a property holds; none if the node does not have it.
pub open spec fn numbers(node: Node, name: Seq<char>) -> Seq<u32> {
    if present(node, name) {
        cells(properties(node)[name])
    } else {
        Seq::empty()
    }
}

/// The string that a property holds.
pub open spec fn string(node: Node, name: Seq<char>) -> Option<Seq<char>> {
    if present(node, name) {
        text(properties(node)[name])
    } else {
        None
    }
}

/// The strings that a property holds; none if the node does not have it.
pub open spec fn strings(node: Node, name: Seq<char>) -> Seq<Seq<char>> {
    if present(node, name) {
        texts(properties(node)[name])
    } else {
        Seq::empty()
    }
}

fn be_u32_at(data: &Vec<u8>, at: usize) -> (value: u32)
    requires
        at + 4 <= data.len(),
    ensures
        value == be_u32(data@.subrange(at as int, at + 4)),
{
    data[at] as u32 * 0x100_0000 + data[at + 1] as u32 * 0x1_0000 + data[at + 2] as u32 * 0x100
        + data[at + 3] as u32
}

/// Whether a node has a property.
pub fn has_prop(node: &Node, name: &str) -> (found: bool)
    ensures
        found == present(*node, name@),
{
    get_property(node, name).is_some()
}

/// The bytes of a property.
pub fn prop_bytes(node: &Node, name: &str) -> (found: Option<Vec<u8>>)
    ensures
        found is Some <==> present(*node, name@),
        found matches Some(bytes) ==> bytes@ == properties(*node)[name@],
{
    get_property(node, name)
}

/// The number in a property of exactly four bytes.
pub fn prop_u32(node: &Node, name: &str) -> (found: Option<u32>)
    ensures
        found == number(*node, name@),
{
    match get_property(node, name) {
        Some(data) => {
            if data.len() == 4 {
                assert(data@.subrange(0, 4) =~= data@);
                Some(be_u32_at(&data, 0))
            } else {
                None
            }
        },
        None => None,
    }
}

/// The numbers in a property.
pub fn prop_u32_list(node: &Node, name: &str) -> (found: Vec<u32>)
    ensures
        found@ == numbers(*node, name@),
{
    let mut list: Vec<u32> = Vec::new();
    if let Some(data) = get_property(node, name) {
        let count: usize = data.len() / 4;
        for i in 0..count
            invariant
                count == data.len() / 4,
                list@.len() == i,
                forall|j: int| 0 <= j < i ==> list@[j] == cells(data@)[j],
        {
            list.push(be_u32_at(&data, 4 * i));
        }
        assert(list@ =~= cells(data@));
    }
    list
}

/// The string in a property.
pub fn prop_str(node: &Node, name: &str) -> (found: Option<String>)
    ensures
        (match found {
            Some(value) => Some(value@),
            None => None,
        }) == string(*node, name@),
{
    match get_property(node, name) {
        Some(data) => as_str(&data),
        None => None,
    }
}

/// The strings in a property.
pub fn prop_str_list(node: &Node, name: &str) -> (found: Vec<String>)
    ensures
        found@.len() == strings(*node, name@).len(),
        forall|i: int|
            0 <= i < found@.len() ==> (#[trigger] found@[i])@ == strings(*node, name@)[i],
{
    match get_property(node, name) {
        Some(data) => as_str_iter(&data),
        None => Vec::new(),
    }
}

/// Whether two strings are the same.
pub fn same_str(a: &str, b: &str) -> (same: bool)
    ensures
        same == (a@ == b@),
{
    let x = a.as_bytes();
    let y = b.as_bytes();
    proof {
        vstd::utf8::encode_utf8_decode_utf8(a@);
        vstd::utf8::encode_utf8_decode_utf8(b@);
    }
    if x.len() != y.len() {
        return false;
    }
    for i in 0..x.len()
        invariant
            x@ == vstd::utf8::encode_utf8(a@),
            y@ == vstd::utf8::encode_utf8(b@),
            x@.len() == y@.len(),
            forall|j: int| 0 <= j < i ==> x@[j] == y@[j],
    {
        if x[i] != y[i] {
            return false;
        }
    }
    assert(x@ =~= y@);
    true
}

/// Whether a node is compatible with a binding.
pub fn has_compatible(node: &Node, compatible: &str) -> (found: bool)
    ensures
        found == strings(*node, "compatible"@).contains(compatible@),
{
    let list = prop_str_list(node, "compatible");
    for i in 0..list.len()
        invariant
            list@.len() == strings(*node, "compatible"@).len(),
            forall|j: int|
                0 <= j < list@.len() ==> (#[trigger] list@[j])@ == strings(
                    *node,
                    "compatible"@,
                )[j],
            forall|j: int| 0 <= j < i ==> strings(*node, "compatible"@)[j] != compatible@,
    {
        assert(list@[i as int]@ == strings(*node, "compatible"@)[i as int]);
        if same_str(list[i].as_str(), compatible) {
            return true;
        }
    }
    false
}

/// A list of numbers has one for each four bytes, the first byte of the four
/// highest; a property is one number exactly if it has four bytes.
pub proof fn law_numbers_are_big_endian(node: Node, name: Seq<char>, i: int)
    requires
        present(node, name),
        0 <= i,
        4 * i + 4 <= properties(node)[name].len(),
    ensures
        ({
            let data = properties(node)[name];
            let value = 0x100_0000 * data[4 * i] + 0x1_0000 * data[4 * i + 1] + 0x100 * data[4 * i
                + 2] + data[4 * i + 3];
            &&& numbers(node, name).len() == data.len() / 4
            &&& numbers(node, name)[i] == value
            &&& number(node, name) is Some <==> data.len() == 4
            &&& i == 0 && data.len() == 4 ==> number(node, name) == Some(value as u32)
        }),
{
    let data = properties(node)[name];
    let four = data.subrange(4 * i, 4 * i + 4);
    assert(four[0] == data[4 * i] && four[1] == data[4 * i + 1] && four[2] == data[4 * i + 2]
        && four[3] == data[4 * i + 3]);
}

} // verus!
