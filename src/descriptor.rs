use vstd::prelude::*;
use crate::consts::DfuAttributes;

verus! {

/// The bytes of the DFU functional descriptor: attributes, a detach timeout of
/// 2500 ms, the transfer size in little-endian order, and DFU version 1.1.
pub open spec fn functional_descriptor_bytes(attrs: DfuAttributes, block_size: usize) -> Seq<u8> {
    seq![
        attrs.bits,
        0xc4u8,
        0x09u8,
        (block_size % 256) as u8,
        ((block_size / 256) % 256) as u8,
        0x10u8,
        0x01u8,
    ]
}

/// The DFU functional descriptor of an interface with these attributes and block size.
pub fn functional_descriptor(attrs: DfuAttributes, block_size: usize) -> (r: Vec<u8>)
    ensures
        r@ == functional_descriptor_bytes(attrs, block_size),
{
    let mut v: Vec<u8> = Vec::new();
    v.push(attrs.bits());
    v.push(0xc4u8);
    v.push(0x09u8);
    v.push((block_size % 256) as u8);
    v.push(((block_size / 256) % 256) as u8);
    v.push(0x10u8);
    v.push(0x01u8);
    assert(v@ =~= functional_descriptor_bytes(attrs, block_size));
    v
}

} // verus!
