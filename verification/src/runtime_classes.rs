use vstd::prelude::*;

verus! {

/// A class bundled with the launcher: its internal name (with `/` between
/// package parts) and its class file.
#[derive(Debug)]
pub struct RuntimeClass {
    pub name: Vec<u8>,
    pub data: Vec<u8>,
}

/// The classes read from a bundle, and whether the bundle ended in a
/// damaged record.
#[derive(Debug)]
pub struct RuntimeClasses {
    pub classes: Vec<RuntimeClass>,
    pub damaged: bool,
}

/// The big-endian 32-bit number at `i` of `d`.
pub open spec fn be32(d: Seq<u8>, i: int) -> int {
    d[i] as int * 0x1000000 + d[i + 1] as int * 0x10000 + d[i + 2] as int * 0x100 + d[i + 3] as int
}

/// `s` with each `.` replaced by `/`.
pub open spec fn dots_to_slashes(s: Seq<u8>) -> Seq<u8> {
    s.map_values(|b: u8| if b == 46 { 47u8 } else { b })
}

/// The records of the class bundle `blob` from position `index` on, and
/// whether a damaged record ended them.  A record is a big-endian 32-bit
/// name length, the name, a big-endian 32-bit class length and the class
/// file.  A record is damaged when its name length field does not end
/// before the bundle does, when its class length field does not end before
/// the bundle does, or when its class file runs past the end of the bundle.
pub open spec fn bundle_records(blob: Seq<u8>, index: int) -> (Seq<(Seq<u8>, Seq<u8>)>, bool)
    decreases blob.len() - index,
{
    if index < 0 || index >= blob.len() {
        (seq![], false)
    } else if index + 4 >= blob.len() {
        (seq![], true)
    } else {
        let name_end = index + 4 + be32(blob, index);
        if name_end + 4 >= blob.len() {
            (seq![], true)
        } else {
            let class_end = name_end + 4 + be32(blob, name_end);
            if class_end > blob.len() {
                (seq![], true)
            } else {
                let rest = bundle_records(blob, class_end);
                (
                    seq![(dots_to_slashes(blob.subrange(index + 4, name_end)), blob.subrange(name_end + 4, class_end))]
                        + rest.0,
                    rest.1,
                )
            }
        }
    }
}

/// The big-endian 32-bit encoding of `n`.
pub open spec fn be32_bytes(n: int) -> Seq<u8> {
    seq![
        (n / 0x1000000 % 256) as u8,
        (n / 0x10000 % 256) as u8,
        (n / 0x100 % 256) as u8,
        (n % 256) as u8,
    ]
}

/// The bundle that holds the records `recs` (name and class file) in order.
pub open spec fn bundle_bytes(recs: Seq<(Seq<u8>, Seq<u8>)>) -> Seq<u8>
    decreases recs.len(),
{
    if recs.len() == 0 {
        seq![]
    } else {
        be32_bytes(recs[0].0.len() as int) + recs[0].0 + be32_bytes(recs[0].1.len() as int) + recs[0].1
            + bundle_bytes(recs.drop_first())
    }
}

proof fn lemma_be32_bytes(n: int, rest: Seq<u8>)
    requires
        0 <= n < 0x1_0000_0000,
    ensures
        be32(be32_bytes(n) + rest, 0) == n,
{
    let x = n as u32;
    assert((x / 0x1000000 % 256) * 0x1000000 + (x / 0x10000 % 256) * 0x10000 + (x / 0x100 % 256)
        * 0x100 + x % 256 == x) by (bit_vector);
    let b = be32_bytes(n) + rest;
    assert(b[0] == (n / 0x1000000 % 256) as u8);
    assert(b[3] == (n % 256) as u8);
}

proof fn lemma_bundle_records_shift(pre: Seq<u8>, b: Seq<u8>, i: int)
    requires
        0 <= i,
    ensures
        bundle_records(pre + b, pre.len() + i) == bundle_records(b, i),
    decreases b.len() - i,
{
    let c = pre + b;
    let j = pre.len() + i;
    if i < b.len() && i + 4 < b.len() {
        assert(be32(c, j) == be32(b, i));
        let name_end = i + 4 + be32(b, i);
        if name_end + 4 < b.len() {
            assert(be32(c, pre.len() + name_end) == be32(b, name_end));
            let class_end = name_end + 4 + be32(b, name_end);
            if class_end <= b.len() {
                lemma_bundle_records_shift(pre, b, class_end);
                assert(c.subrange(j + 4, pre.len() + name_end) =~= b.subrange(i + 4, name_end));
                assert(c.subrange(pre.len() + name_end + 4, pre.len() + class_end) =~= b.subrange(
                    name_end + 4,
                    class_end,
                ));
            }
        }
    }
}

proof fn lemma_bundle_records_first(name: Seq<u8>, data: Seq<u8>, tail: Seq<u8>)
    requires
        name.len() < 0x1_0000_0000,
        data.len() < 0x1_0000_0000,
        data.len() > 0 || tail.len() > 0,
    ensures
        ({
            let b = be32_bytes(name.len() as int) + name + be32_bytes(data.len() as int) + data + tail;
            bundle_records(b, 0) == (
                seq![(dots_to_slashes(name), data)] + bundle_records(tail, 0).0,
                bundle_records(tail, 0).1,
            )
        }),
{
    let enc = be32_bytes(name.len() as int) + name + be32_bytes(data.len() as int) + data;
    let b = enc + tail;
    let name_end: int = 4 + name.len() as int;
    assert(be32(b, 0) == name.len()) by {
        lemma_be32_bytes(name.len() as int, name + be32_bytes(data.len() as int) + data + tail);
        assert(b =~= be32_bytes(name.len() as int) + (name + be32_bytes(data.len() as int) + data
            + tail));
    }
    assert(be32(b, name_end) == data.len()) by {
        lemma_be32_bytes(data.len() as int, data + tail);
        let q = be32_bytes(data.len() as int) + data + tail;
        assert(b.subrange(name_end, name_end + 4) =~= q.subrange(0, 4));
        assert(b[name_end] == q[0]);
        assert(b[name_end + 1] == q[1]);
        assert(b[name_end + 2] == q[2]);
        assert(b[name_end + 3] == q[3]);
    }
    lemma_bundle_records_shift(enc, tail, 0);
    assert(b.subrange(4, name_end) =~= name);
    assert(b.subrange(name_end + 4, name_end + 4 + data.len()) =~= data);
}

/// A bundle written from records reads back as those records, their names
/// with `.` turned into `/`, undamaged, as long as the last record's class
/// file is not empty.
pub proof fn lemma_bundle_roundtrip(recs: Seq<(Seq<u8>, Seq<u8>)>)
    requires
        forall|k: int|
            0 <= k < recs.len() ==> (#[trigger] recs[k]).0.len() < 0x1_0000_0000 && recs[k].1.len()
                < 0x1_0000_0000,
        recs.len() == 0 || recs.last().1.len() > 0,
    ensures
        bundle_records(bundle_bytes(recs), 0) == (
            recs.map_values(|r: (Seq<u8>, Seq<u8>)| (dots_to_slashes(r.0), r.1)),
            false,
        ),
    decreases recs.len(),
{
    let f = |r: (Seq<u8>, Seq<u8>)| (dots_to_slashes(r.0), r.1);
    if recs.len() == 0 {
        assert(recs.map_values(f) =~= Seq::<(Seq<u8>, Seq<u8>)>::empty());
    } else {
        let rest = recs.drop_first();
        let name = recs[0].0;
        let data = recs[0].1;
        let tail = bundle_bytes(rest);
        assert(recs[0].0.len() < 0x1_0000_0000);
        if rest.len() > 0 {
            assert(rest.last() == recs.last());
            assert(tail.len() >= 8) by {
                assert(tail =~= be32_bytes(rest[0].0.len() as int) + (rest[0].0 + be32_bytes(
                    rest[0].1.len() as int,
                ) + rest[0].1 + bundle_bytes(rest.drop_first())));
            }
        }
        assert forall|k: int| 0 <= k < rest.len() implies (#[trigger] rest[k]).0.len() < 0x1_0000_0000
            && rest[k].1.len() < 0x1_0000_0000 by {
            assert(rest[k] == recs[k + 1]);
        }
        lemma_bundle_roundtrip(rest);
        lemma_bundle_records_first(name, data, tail);
        assert(recs.map_values(f) =~= seq![f(recs[0])] + rest.map_values(f));
    }
}

/// The content of a list of runtime classes.
pub open spec fn class_views(v: Seq<RuntimeClass>) -> Seq<(Seq<u8>, Seq<u8>)> {
    v.map_values(|c: RuntimeClass| (c.name@, c.data@))
}

fn be32_at(d: &[u8], i: usize) -> (r: u32)
    requires
        i + 3 < d@.len(),
    ensures
        r == be32(d@, i as int),
{
    (d[i] as u32) * 0x1000000 + (d[i + 1] as u32) * 0x10000 + (d[i + 2] as u32) * 0x100 + (d[i
        + 3] as u32)
}

fn name_of(part: &[u8]) -> (r: Vec<u8>)
    ensures
        r@ == dots_to_slashes(part@),
{
    let mut r: Vec<u8> = Vec::new();
    let mut i: usize = 0;
    while i < part.len()
        invariant
            i <= part.len(),
            r@ == dots_to_slashes(part@.take(i as int)),
        decreases part.len() - i,
    {
        let b = part[i];
        r.push(if b == 46 { 47u8 } else { b });
        assert(dots_to_slashes(part@.take(i + 1)) =~= dots_to_slashes(part@.take(i as int)).push(
            if b == 46 { 47u8 } else { b },
        ));
        i = i + 1;
    }
    assert(part@.take(part.len() as int) =~= part@);
    r
}

/// Reads the classes that the launcher bundles, as `bundle_records` says.
pub fn parse_runtime_classes(blob: &[u8]) -> (r: RuntimeClasses)
    ensures
        class_views(r.classes@) == bundle_records(blob@, 0).0,
        r.damaged == bundle_records(blob@, 0).1,
{
    let len = blob.len();
    let mut classes: Vec<RuntimeClass> = Vec::new();
    let mut index: usize = 0;
    while index < len
        invariant
            len == blob@.len(),
            index <= len,
            class_views(classes@) + bundle_records(blob@, index as int).0 == bundle_records(blob@, 0).0,
            bundle_records(blob@, index as int).1 == bundle_records(blob@, 0).1,
        decreases len - index,
    {
        let room = len - index;
        if room <= 4 {
            assert(class_views(classes@) =~= bundle_records(blob@, 0).0);
            return RuntimeClasses { classes, damaged: true };
        }
        let name_len = be32_at(blob, index) as usize;
        let name_start = index + 4;
        let room = len - name_start;
        if room <= 4 || name_len >= room - 4 {
            assert(class_views(classes@) =~= bundle_records(blob@, 0).0);
            return RuntimeClasses { classes, damaged: true };
        }
        let name_end = name_start + name_len;
        let class_len = be32_at(blob, name_end) as usize;
        let class_start = name_end + 4;
        if class_len > len - class_start {
            assert(class_views(classes@) =~= bundle_records(blob@, 0).0);
            return RuntimeClasses { classes, damaged: true };
        }
        let class_end = class_start + class_len;
        let name = name_of(&blob[name_start..name_end]);
        let data = vstd::slice::slice_to_vec(&blob[class_start..class_end]);
        let ghost before = class_views(classes@);
        classes.push(RuntimeClass { name, data });
        assert(class_views(classes@) =~= before.push((name@, data@)));
        assert(bundle_records(blob@, index as int).0 =~= seq![(name@, data@)] + bundle_records(
            blob@,
            class_end as int,
        ).0);
        assert(class_views(classes@) + bundle_records(blob@, class_end as int).0 =~= before
            + bundle_records(blob@, index as int).0);
        index = class_end;
    }
    assert(class_views(classes@) =~= bundle_records(blob@, 0).0);
    RuntimeClasses { classes, damaged: false }
}

} // verus!
