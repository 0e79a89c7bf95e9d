//! Low-level pieces of the wire encoding: base-128 varints, single fields,
//! and byte-buffer helpers.

use vstd::prelude::*;

verus! {

/// The base-128 varint encoding of `n`: seven value bits per byte, least
/// significant group first, high bit set on every byte but the last.
pub open spec fn varint(n: nat) -> Seq<u8>
    decreases n,
{
    if n < 0x80 {
        seq![n as u8]
    } else {
        seq![(0x80 + (n % 0x80)) as u8] + varint(n / 0x80)
    }
}

/// Appends the bytes of `src` to `out`.
pub fn extend_from(out: &mut Vec<u8>, src: &Vec<u8>)
    ensures
        final(out)@ == old(out)@ + src@,
{
    let mut i: usize = 0;
    while i < src.len()
        invariant
            i <= src.len(),
            out@ == old(out)@ + src@.subrange(0, i as int),
        decreases src.len() - i,
    {
        out.push(src[i]);
        proof {
            assert(src@.subrange(0, i + 1 as int)
                =~= src@.subrange(0, i as int).push(src@[i as int]));
        }
        i = i + 1;
    }
    proof {
        assert(src@.subrange(0, src@.len() as int) =~= src@);
    }
}

/// Appends the varint encoding of `v` to `out`.
pub fn put_varint(out: &mut Vec<u8>, v: u64)
    ensures
        final(out)@ == old(out)@ + varint(v as nat),
{
    let mut x: u64 = v;
    loop
        invariant
            out@ + varint(x as nat) == old(out)@ + varint(v as nat),
        decreases x,
    {
        if x < 0x80 {
            out.push(x as u8);
            proof {
                assert(out@ =~= old(out)@ + varint(v as nat));
            }
            return;
        } else {
            let ghost pre = out@;
            let b: u8 = (0x80 + (x % 0x80)) as u8;
            out.push(b);
            proof {
                assert(varint(x as nat)
                    == seq![b] + varint((x as nat) / 0x80));
                assert(pre + seq![b] + varint((x / 0x80) as nat)
                    =~= pre + varint(x as nat));
            }
            x = x / 0x80;
        }
    }
}

/// A `uint64` or `uint32` scalar field: omitted when zero, otherwise the tag
/// byte followed by the varint of the value.
pub open spec fn u64_field(tag: u8, v: u64) -> Seq<u8> {
    if v == 0 {
        Seq::empty()
    } else {
        seq![tag] + varint(v as nat)
    }
}

/// An optional `uint32` field: on the wire exactly when the value is present,
/// even when that value is zero.
pub open spec fn opt_u32_field(tag: u8, v: Option<u32>) -> Seq<u8> {
    match v {
        Option::None => Seq::empty(),
        Option::Some(x) => seq![tag] + varint(x as nat),
    }
}

/// A `bytes` field: omitted when empty, otherwise the tag byte, the length as
/// a varint, and the bytes themselves.
pub open spec fn bytes_field(tag: u8, b: Seq<u8>) -> Seq<u8> {
    if b.len() == 0 {
        Seq::empty()
    } else {
        seq![tag] + varint(b.len()) + b
    }
}

/// An embedded-message field: absent when the option is empty, otherwise the
/// tag byte, the payload length as a varint, and the payload.
pub open spec fn msg_field(tag: u8, payload: Option<Seq<u8>>) -> Seq<u8> {
    match payload {
        Option::None => Seq::empty(),
        Option::Some(p) => seq![tag] + varint(p.len()) + p,
    }
}

/// Appends a scalar field to `out`.
pub fn put_u64_field(out: &mut Vec<u8>, tag: u8, v: u64)
    ensures
        final(out)@ == old(out)@ + u64_field(tag, v),
{
    if v != 0 {
        out.push(tag);
        put_varint(out, v);
        proof {
            assert(out@ =~= old(out)@ + u64_field(tag, v));
        }
    } else {
        proof {
            assert(out@ =~= old(out)@ + u64_field(tag, v));
        }
    }
}

/// Appends an optional `uint32` field to `out`.
pub fn put_opt_u32_field(out: &mut Vec<u8>, tag: u8, v: Option<u32>)
    ensures
        final(out)@ == old(out)@ + opt_u32_field(tag, v),
{
    match v {
        Option::None => {
            proof {
                assert(out@ =~= old(out)@ + opt_u32_field(tag, v));
            }
        }
        Option::Some(x) => {
            out.push(tag);
            put_varint(out, x as u64);
            proof {
                assert(out@ =~= old(out)@ + opt_u32_field(tag, v));
            }
        }
    }
}

/// Appends a `bytes` field to `out`.
pub fn put_bytes_field(out: &mut Vec<u8>, tag: u8, b: &Vec<u8>)
    ensures
        final(out)@ == old(out)@ + bytes_field(tag, b@),
{
    if b.len() > 0 {
        out.push(tag);
        put_varint(out, b.len() as u64);
        extend_from(out, b);
        proof {
            assert(out@ =~= old(out)@ + bytes_field(tag, b@));
        }
    } else {
        proof {
            assert(out@ =~= old(out)@ + bytes_field(tag, b@));
        }
    }
}

/// Appends an embedded-message field holding `payload` to `out`.
pub fn put_msg_field(out: &mut Vec<u8>, tag: u8, payload: &Vec<u8>)
    ensures
        final(out)@ == old(out)@ + msg_field(tag, Option::Some(payload@)),
{
    out.push(tag);
    put_varint(out, payload.len() as u64);
    extend_from(out, payload);
    proof {
        assert(out@ =~= old(out)@ + msg_field(tag, Option::Some(payload@)));
    }
}

} // verus!
