use vstd::prelude::*;
use std::io::Cursor;
use jclass::attribute_info::{CodeAttribute, ExceptionTable, ExceptionTableEntry, OriginAttribute};
use jclass::constant_pool::{ConstantPool, ConstantValue};
use jclass::field_info::FieldInfo;
use jclass::jclass_info::JClassInfo;
use jclass::method_info::MethodInfo;

verus! {

#[verifier::external_type_specification]
#[verifier::external_body]
pub struct ExConstantPool(ConstantPool);

#[verifier::external_type_specification]
#[verifier::external_body]
pub struct ExOriginAttribute(OriginAttribute);

#[verifier::external_type_specification]
#[verifier::external_body]
pub struct ExFieldInfo(FieldInfo);

#[verifier::external_type_specification]
#[verifier::external_body]
pub struct ExMethodInfo(MethodInfo);

#[verifier::external_type_specification]
#[verifier::external_body]
pub struct ExJClassInfo(JClassInfo);

/// A constant of a class file's constant pool.  The kinds that the URL
/// rewrite reads or adds are spelled out; any other constant is given by the
/// bytes that `jclass` writes for it (its tag and its content).
pub enum PoolEntryView {
    /// The unused slot 0 and the slot after a `long` or `double` constant.
    Null,
    Utf8(Seq<char>),
    Class(u16),
    NameAndType(u16, u16),
    Methodref(u16, u16),
    Other(Seq<u8>),
}

/// The slots of the `jclass` constant pool `p` (its `values`), in order,
/// each read as a [`PoolEntryView`].
pub uninterp spec fn pool_entries(p: ConstantPool) -> Seq<PoolEntryView>;

/// The count of the `jclass` constant pool `p`: the index that the last
/// constant it added was given.
pub uninterp spec fn pool_count_of(p: ConstantPool) -> u16;

/// A pool in the shape that `ConstantPool::new` starts (one unused slot 0
/// and a count of 0) and that adding constants keeps: one more slot than
/// its count, each constant numbered by its position.  A pool built by
/// `Default` has no slot 0 and is not of this shape.
pub open spec fn pool_ready(p: ConstantPool) -> bool {
    pool_count_of(p) as int + 1 == pool_entries(p).len()
}

/// The constant that `ConstantPool::get_constant_item` gives for `index` in
/// a pool of the shape `pool_ready` says, whose count is one less than its
/// number of slots: the constant at that index when it lies below the
/// count, and otherwise the unused slot 0.
pub open spec fn pool_item(e: Seq<PoolEntryView>, index: u16) -> PoolEntryView {
    if (index as int) + 1 < e.len() {
        e[index as int]
    } else {
        e[0]
    }
}

/// The highest index at which `e` holds `v`, or -1.
pub open spec fn last_index_of(e: Seq<PoolEntryView>, v: PoolEntryView) -> int
    decreases e.len(),
{
    if e.len() == 0 {
        -1
    } else if e.last() == v {
        e.len() - 1
    } else {
        last_index_of(e.drop_last(), v)
    }
}

/// What `ConstantPool::add_constant` does with `v`: an equal constant that
/// the pool holds is reused (the one with the highest index), otherwise `v`
/// is appended; the pool after the call and the index of `v` in it.
pub open spec fn spec_add_constant(e: Seq<PoolEntryView>, v: PoolEntryView) -> (Seq<PoolEntryView>, int) {
    let j = last_index_of(e, v);
    if j >= 0 {
        (e, j)
    } else {
        (e.push(v), e.len() as int)
    }
}

/// A constant that the URL rewrite adds to a pool.
pub enum NewConstant {
    Utf8(String),
    Class(u16),
    NameAndType(u16, u16),
    Methodref(u16, u16),
}

impl View for NewConstant {
    type V = PoolEntryView;

    open spec fn view(&self) -> PoolEntryView {
        match self {
            NewConstant::Utf8(s) => PoolEntryView::Utf8(s@),
            NewConstant::Class(i) => PoolEntryView::Class(*i),
            NewConstant::NameAndType(a, b) => PoolEntryView::NameAndType(*a, *b),
            NewConstant::Methodref(a, b) => PoolEntryView::Methodref(*a, *b),
        }
    }
}

/// Calls `ConstantPool::get_constant_item`.  Claimed: the text of the
/// constant it gives, as `pool_item` says, when that constant is a UTF-8
/// constant, and `None` for any other constant.
#[verifier::external_body]
pub(crate) fn pool_utf8_at(pool: &ConstantPool, index: u16) -> (r: Option<String>)
    requires
        pool_ready(*pool),
    ensures
        match pool_item(pool_entries(*pool), index) {
            PoolEntryView::Utf8(s) => r matches Some(t) && t@ == s,
            _ => r is None,
        },
{
    match pool.get_constant_item(index) {
        ConstantValue::ConstantUtf8(s) => Some(s.clone()),
        _ => None,
    }
}

/// Calls `ConstantPool::add_constant`.  Claimed, for a pool of the shape
/// `pool_ready` says: the pool changes and the index comes back as
/// `spec_add_constant` says (the pool's cache maps each constant to the
/// highest index that holds it), and the pool keeps its shape.  The pool's
/// count is a 16-bit number that an appended constant increments; the bound
/// keeps it from overflowing when the constant is not in the pool yet.
#[verifier::external_body]
pub(crate) fn pool_add(pool: &mut ConstantPool, value: NewConstant) -> (r: u16)
    requires
        pool_ready(*old(pool)),
        last_index_of(pool_entries(*old(pool)), value@) >= 0 || pool_entries(*old(pool)).len() <= 0xFFFF,
    ensures
        (pool_entries(*final(pool)), r as int) == spec_add_constant(pool_entries(*old(pool)), value@),
        pool_ready(*final(pool)),
{
    pool.add_constant(
        match value {
            NewConstant::Utf8(s) => ConstantValue::ConstantUtf8(s),
            NewConstant::Class(i) => ConstantValue::ConstantClass(i),
            NewConstant::NameAndType(a, b) => ConstantValue::ConstantNameAndType(a, b),
            NewConstant::Methodref(a, b) => ConstantValue::ConstantMethodref(a, b),
        },
    )
}

/// Calls `ConstantPool::get_constant_item` and compares the constant with
/// `==` of `ConstantValue` (same kind and same content).  Claimed, for a
/// pool of the shape `pool_ready` says: the answer is whether the constant
/// that `pool_item` gives for `index` is `value`.
#[verifier::external_body]
pub(crate) fn pool_holds_at(pool: &ConstantPool, index: u16, value: &NewConstant) -> (r: bool)
    requires
        pool_ready(*pool),
    ensures
        r == (pool_item(pool_entries(*pool), index) == value@),
{
    *pool.get_constant_item(index) == match value {
        NewConstant::Utf8(s) => ConstantValue::ConstantUtf8(s.clone()),
        NewConstant::Class(i) => ConstantValue::ConstantClass(*i),
        NewConstant::NameAndType(a, b) => ConstantValue::ConstantNameAndType(*a, *b),
        NewConstant::Methodref(a, b) => ConstantValue::ConstantMethodref(*a, *b),
    }
}

/// An attribute of a class, a field, a method or a `Code` attribute: the
/// index of its name in the constant pool and its data.
pub struct AttributeModel {
    pub name: u16,
    pub data: Vec<u8>,
}

/// The content of a list of attributes.
pub open spec fn attribute_views(v: Seq<AttributeModel>) -> Seq<(u16, Seq<u8>)> {
    v.map_values(|a: AttributeModel| (a.name, a.data@))
}

/// A field or a method: its access flags, the indexes of its name and
/// descriptor, and its attributes.
pub struct MemberModel {
    pub access_flags: u16,
    pub name: u16,
    pub descriptor: u16,
    pub attributes: Vec<AttributeModel>,
}

/// The content of a field or a method.
pub struct MemberView {
    pub access_flags: u16,
    pub name: u16,
    pub descriptor: u16,
    pub attributes: Seq<(u16, Seq<u8>)>,
}

impl View for MemberModel {
    type V = MemberView;

    open spec fn view(&self) -> MemberView {
        MemberView {
            access_flags: self.access_flags,
            name: self.name,
            descriptor: self.descriptor,
            attributes: attribute_views(self.attributes@),
        }
    }
}

/// The content of a list of fields or methods.
pub open spec fn member_views(v: Seq<MemberModel>) -> Seq<MemberView> {
    v.map_values(|m: MemberModel| m@)
}

/// A class file as `jclass` reads it.
pub struct ClassModel {
    pub minor_version: u16,
    pub major_version: u16,
    pub constant_pool: ConstantPool,
    pub access_flags: u16,
    pub class_index: u16,
    pub superclass_index: u16,
    pub interfaces: Vec<u16>,
    pub fields: Vec<MemberModel>,
    pub methods: Vec<MemberModel>,
    pub attributes: Vec<AttributeModel>,
}

/// The content of a class file.
pub struct ClassView {
    pub minor_version: u16,
    pub major_version: u16,
    pub pool: Seq<PoolEntryView>,
    pub access_flags: u16,
    pub class_index: u16,
    pub superclass_index: u16,
    pub interfaces: Seq<u16>,
    pub fields: Seq<MemberView>,
    pub methods: Seq<MemberView>,
    pub attributes: Seq<(u16, Seq<u8>)>,
}

impl View for ClassModel {
    type V = ClassView;

    open spec fn view(&self) -> ClassView {
        ClassView {
            minor_version: self.minor_version,
            major_version: self.major_version,
            pool: pool_entries(self.constant_pool),
            access_flags: self.access_flags,
            class_index: self.class_index,
            superclass_index: self.superclass_index,
            interfaces: self.interfaces@,
            fields: member_views(self.fields@),
            methods: member_views(self.methods@),
            attributes: attribute_views(self.attributes@),
        }
    }
}

/// A `Code` attribute as `jclass` reads it: the operand stack and local
/// variable sizes, the bytecode, the exception table (start, end, handler,
/// catch type) and the attributes of the code.
pub struct CodeModel {
    pub max_stack: u16,
    pub max_locals: u16,
    pub codes: Vec<u8>,
    pub exceptions: Vec<(u16, u16, u16, u16)>,
    pub attributes: Vec<AttributeModel>,
}

/// The content of a `Code` attribute.
pub struct CodeView {
    pub max_stack: u16,
    pub max_locals: u16,
    pub codes: Seq<u8>,
    pub exceptions: Seq<(u16, u16, u16, u16)>,
    pub attributes: Seq<(u16, Seq<u8>)>,
}

impl View for CodeModel {
    type V = CodeView;

    open spec fn view(&self) -> CodeView {
        CodeView {
            max_stack: self.max_stack,
            max_locals: self.max_locals,
            codes: self.codes@,
            exceptions: self.exceptions@,
            attributes: attribute_views(self.attributes@),
        }
    }
}

/// The class that `JClassInfo::from_reader` reads from `bytes`, or `None`
/// where it reports an error.
pub uninterp spec fn class_parsed(bytes: Seq<u8>) -> Option<ClassView>;

/// The bytes that `JClassInfo::write_to` writes for the class `c`, or `None`
/// where it reports an error.
pub uninterp spec fn class_written(c: ClassView) -> Option<Seq<u8>>;

/// The `Code` attribute that `CodeAttribute::new_with_data` reads from
/// `data`, or `None` where it reports an error.
pub uninterp spec fn code_parsed(data: Seq<u8>) -> Option<CodeView>;

/// The data that `CodeAttribute::to_bytes` gives for `c`, or `None` where it
/// reports an error.
pub uninterp spec fn code_written(c: CodeView) -> Option<Seq<u8>>;

/// Moves the attributes that `jclass` read into the library's type.
#[verifier::external_body]
fn attributes_in(v: Vec<OriginAttribute>) -> Vec<AttributeModel> {
    v.into_iter().map(|a| AttributeModel { name: a.name, data: a.data }).collect()
}

/// Moves attributes of the library's type into the type `jclass` writes.
#[verifier::external_body]
fn attributes_out(v: Vec<AttributeModel>) -> Vec<OriginAttribute> {
    v.into_iter().map(|a| OriginAttribute { name: a.name, data: a.data }).collect()
}

/// Moves the methods that `jclass` read into the library's type.
#[verifier::external_body]
fn methods_in(v: Vec<MethodInfo>) -> Vec<MemberModel> {
    v.into_iter().map(
        |m| MemberModel {
            access_flags: m.access_flags,
            name: m.name,
            descriptor: m.descriptor,
            attributes: attributes_in(m.attributes),
        },
    ).collect()
}

/// Moves methods of the library's type into the type `jclass` writes.
#[verifier::external_body]
fn methods_out(v: Vec<MemberModel>) -> Vec<MethodInfo> {
    v.into_iter().map(
        |m| MethodInfo {
            access_flags: m.access_flags,
            name: m.name,
            descriptor: m.descriptor,
            attributes: attributes_out(m.attributes),
        },
    ).collect()
}

/// Moves the fields that `jclass` read into the library's type.
#[verifier::external_body]
fn fields_in(v: Vec<FieldInfo>) -> Vec<MemberModel> {
    v.into_iter().map(
        |m| MemberModel {
            access_flags: m.access_flags,
            name: m.name,
            descriptor: m.descriptor,
            attributes: attributes_in(m.attributes),
        },
    ).collect()
}

/// Moves fields of the library's type into the type `jclass` writes.
#[verifier::external_body]
fn fields_out(v: Vec<MemberModel>) -> Vec<FieldInfo> {
    v.into_iter().map(
        |m| FieldInfo {
            access_flags: m.access_flags,
            name: m.name,
            descriptor: m.descriptor,
            attributes: attributes_out(m.attributes),
        },
    ).collect()
}

/// Moves a class that `jclass` read into the library's type.
#[verifier::external_body]
fn class_in(i: JClassInfo) -> ClassModel {
    ClassModel {
        minor_version: i.minor_version,
        major_version: i.major_version,
        constant_pool: i.constant_pool,
        access_flags: i.access_flags,
        class_index: i.class_index,
        superclass_index: i.superclass_index,
        interfaces: i.interfaces,
        fields: fields_in(i.fields),
        methods: methods_in(i.methods),
        attributes: attributes_in(i.attributes),
    }
}

/// Moves a class of the library's type into the type `jclass` writes.
#[verifier::external_body]
fn class_out(c: ClassModel) -> JClassInfo {
    JClassInfo {
        magic: jclass::jclass_info::JCLASS_MAGIC,
        minor_version: c.minor_version,
        major_version: c.major_version,
        constant_pool: c.constant_pool,
        access_flags: c.access_flags,
        class_index: c.class_index,
        superclass_index: c.superclass_index,
        interfaces: c.interfaces,
        fields: fields_out(c.fields),
        methods: methods_out(c.methods),
        attributes: attributes_out(c.attributes),
    }
}

/// Calls `JClassInfo::from_reader` on the bytes.  Claimed: the result is
/// `class_parsed` of the bytes, and the pool it read has the shape that
/// `pool_ready` says (`ConstantPool::new_with_reader` starts from
/// `ConstantPool::new` and adds each constant).  The reader reserves memory
/// for each attribute by its declared `i32` length, which panics for a
/// length of 2^31 or more, and counts constant indexes in a `u16`, which
/// overflows on a `long` or `double` at index 0xFFFE; `requires` leaves
/// those inputs out.
#[verifier::external_body]
pub(crate) fn parse_class(bytes: &[u8]) -> (r: Option<ClassModel>)
    requires
        class_lengths_ok(bytes@),
    ensures
        match r {
            Some(m) => class_parsed(bytes@) == Some(m@) && pool_ready(m.constant_pool),
            None => class_parsed(bytes@) is None,
        },
{
    match JClassInfo::from_reader(&mut Cursor::new(bytes).into()) {
        Ok(i) => Some(class_in(i)),
        Err(_) => None,
    }
}

/// Calls `JClassInfo::write_to` with a writer into a new buffer.  Claimed:
/// the result is `class_written` of the class.
#[verifier::external_body]
pub(crate) fn write_class(c: ClassModel) -> (r: Option<Vec<u8>>)
    ensures
        match r {
            Some(b) => class_written(c@) == Some(b@),
            None => class_written(c@) is None,
        },
{
    let info = class_out(c);
    let mut out = Vec::new();
    let written = info.write_to(&mut std::io::BufWriter::new(&mut out).into());
    match written {
        Ok(()) => Some(out),
        Err(_) => None,
    }
}

/// Calls `CodeAttribute::new_with_data`.  Claimed: the result is
/// `code_parsed` of the data.  A declared code or attribute length of 2^31
/// or more makes the reader's memory reservation panic; `requires` leaves
/// those inputs out.
#[verifier::external_body]
pub(crate) fn parse_code(data: &[u8]) -> (r: Option<CodeModel>)
    requires
        code_lengths_ok(data@),
    ensures
        match r {
            Some(c) => code_parsed(data@) == Some(c@),
            None => code_parsed(data@) is None,
        },
{
    let c = CodeAttribute::new_with_data(data).ok()?;
    let exceptions = c.exceptions.entries.iter().map(
        |e| (e.start_pc, e.end_pc, e.handler_pc, e.catch_type),
    ).collect();
    Some(CodeModel {
        max_stack: c.max_stack,
        max_locals: c.max_locals,
        codes: c.codes,
        exceptions,
        attributes: attributes_in(c.attributes),
    })
}

/// Calls `CodeAttribute::to_bytes`.  Claimed: the result is `code_written`
/// of the attribute.
#[verifier::external_body]
pub(crate) fn write_code(c: CodeModel) -> (r: Option<Vec<u8>>)
    ensures
        match r {
            Some(b) => code_written(c@) == Some(b@),
            None => code_written(c@) is None,
        },
{
    let entries = c.exceptions.into_iter().map(
        |(s, e, h, t)| ExceptionTableEntry { start_pc: s, end_pc: e, handler_pc: h, catch_type: t },
    ).collect();
    let code = CodeAttribute {
        codes: c.codes,
        max_stack: c.max_stack,
        max_locals: c.max_locals,
        exceptions: ExceptionTable { entries },
        attributes: attributes_out(c.attributes),
    };
    code.to_bytes().ok()
}


proof fn lemma_last_index_bounds_aux(e: Seq<PoolEntryView>, v: PoolEntryView)
    ensures
        -1 <= last_index_of(e, v) < e.len(),
    decreases e.len(),
{
    if e.len() > 0 && e.last() != v {
        lemma_last_index_bounds_aux(e.drop_last(), v);
    }
}

/// Adding a constant grows the pool by at most one and answers an index
/// inside it.
pub proof fn lemma_last_index_bounds(e: Seq<PoolEntryView>, v: PoolEntryView)
    ensures
        spec_add_constant(e, v).0.len() <= e.len() + 1,
        spec_add_constant(e, v).0.len() >= e.len(),
        0 <= spec_add_constant(e, v).1 < spec_add_constant(e, v).0.len(),
{
    lemma_last_index_bounds_aux(e, v);
}

/// Calls `ConstantPool::get_constant_count`.  Claimed: the result is the
/// pool's count.
#[verifier::external_body]
pub(crate) fn pool_count(pool: &ConstantPool) -> (r: u16)
    ensures
        r == pool_count_of(*pool),
{
    pool.get_constant_count()
}


/// How far a read of a class file in `jclass`'s layout gets: on to the byte
/// at a position, to the end of the input (or a value that `jclass`
/// refuses) where the read stops with an error, or to a point where
/// `jclass` panics: a declared length of 2^31 or more, which it turns into
/// a negative `i32` and then into a memory reservation, or a two-index
/// constant at the last index, which overflows its index counter.
pub enum ScanView {
    Next(int),
    End,
    Bad,
}

/// The big-endian 16-bit number at `p` of `b`.
pub open spec fn u16_at(b: Seq<u8>, p: int) -> int {
    b[p] as int * 0x100 + b[p + 1] as int
}

/// The big-endian 32-bit number at `p` of `b`.
pub open spec fn u32_at(b: Seq<u8>, p: int) -> int {
    b[p] as int * 0x1000000 + b[p + 1] as int * 0x10000 + b[p + 2] as int * 0x100 + b[p + 3] as int
}

/// Reading `n` attributes from `p`: each is a 16-bit name index, a 32-bit
/// length and that many bytes.
pub open spec fn scan_attrs(b: Seq<u8>, p: int, n: int) -> ScanView
    decreases n,
{
    if n <= 0 {
        ScanView::Next(p)
    } else if p + 6 > b.len() {
        ScanView::End
    } else if u32_at(b, p + 2) >= 0x80000000 {
        ScanView::Bad
    } else if p + 6 + u32_at(b, p + 2) > b.len() {
        ScanView::End
    } else {
        scan_attrs(b, p + 6 + u32_at(b, p + 2), n - 1)
    }
}

/// Reading `n` fields or methods from `p`: each is its access flags, name
/// and descriptor indexes, an attribute count and the attributes.
pub open spec fn scan_members(b: Seq<u8>, p: int, n: int) -> ScanView
    decreases n,
{
    if n <= 0 {
        ScanView::Next(p)
    } else if p + 8 > b.len() {
        ScanView::End
    } else {
        match scan_attrs(b, p + 8, u16_at(b, p + 6)) {
            ScanView::Next(q) => scan_members(b, q, n - 1),
            other => other,
        }
    }
}

/// The number of bytes of the constant at `p` (its tag included), or -1
/// for a tag that `jclass` refuses or a UTF-8 constant whose length is cut
/// off.
pub open spec fn pool_entry_size(b: Seq<u8>, p: int) -> int {
    let t = b[p];
    if t == 0 {
        1
    } else if t == 1 {
        if p + 3 <= b.len() {
            3 + u16_at(b, p + 1)
        } else {
            -1
        }
    } else if t == 7 || t == 8 || t == 16 || t == 19 || t == 20 {
        3
    } else if t == 15 {
        4
    } else if t == 3 || t == 4 || t == 9 || t == 10 || t == 11 || t == 12 || t == 17 || t == 18 {
        5
    } else if t == 5 || t == 6 {
        9
    } else {
        -1
    }
}

/// Reading the constants with the indexes `i` up to `count` from `p`; a
/// `long` or `double` constant takes two indexes, and one at index 0xFFFE
/// makes `jclass`'s 16-bit index counter overflow.
pub open spec fn scan_pool(b: Seq<u8>, p: int, i: int, count: int) -> ScanView
    decreases b.len() - p,
{
    if i >= count {
        ScanView::Next(p)
    } else if p < 0 || p >= b.len() {
        ScanView::End
    } else if pool_entry_size(b, p) < 0 || p + pool_entry_size(b, p) > b.len() {
        ScanView::End
    } else if (b[p] == 5 || b[p] == 6) && i + 2 > 0xFFFF {
        ScanView::Bad
    } else {
        scan_pool(
            b,
            p + pool_entry_size(b, p),
            if b[p] == 5 || b[p] == 6 {
                i + 2
            } else {
                i + 1
            },
            count,
        )
    }
}

/// Reading a whole class file in the layout that `JClassInfo::from_reader`
/// reads: magic and versions, the constant pool, flags and class indexes,
/// the interfaces, the fields, the methods and the class attributes.  (The
/// magic number and the UTF-8 text of constants, which `jclass` also
/// checks, are not looked at: a read that goes on past them only looks at
/// more lengths.)
pub open spec fn scan_class(b: Seq<u8>) -> ScanView {
    if b.len() < 10 {
        ScanView::End
    } else {
        match scan_pool(b, 10, 1, u16_at(b, 8)) {
            ScanView::Next(p) => if p + 8 > b.len() {
                ScanView::End
            } else {
                let q = p + 8 + 2 * u16_at(b, p + 6);
                if q + 2 > b.len() {
                    ScanView::End
                } else {
                    match scan_members(b, q + 2, u16_at(b, q)) {
                        ScanView::Next(r) => if r + 2 > b.len() {
                            ScanView::End
                        } else {
                            match scan_members(b, r + 2, u16_at(b, r)) {
                                ScanView::Next(t) => if t + 2 > b.len() {
                                    ScanView::End
                                } else {
                                    scan_attrs(b, t + 2, u16_at(b, t))
                                },
                                other => other,
                            }
                        },
                        other => other,
                    }
                }
            },
            other => other,
        }
    }
}

/// Reading a `Code` attribute's data in the layout that
/// `CodeAttribute::new_with_data` reads: stack and local sizes, the code
/// length and code, the exception table and the attributes.
pub open spec fn scan_code(b: Seq<u8>) -> ScanView {
    if b.len() < 8 {
        ScanView::End
    } else if u32_at(b, 4) >= 0x80000000 {
        ScanView::Bad
    } else {
        let p = 8 + u32_at(b, 4);
        if p + 2 > b.len() {
            ScanView::End
        } else {
            let q = p + 2 + 8 * u16_at(b, p);
            if q + 2 > b.len() {
                ScanView::End
            } else {
                scan_attrs(b, q + 2, u16_at(b, q))
            }
        }
    }
}

/// `JClassInfo::from_reader` reads no length of 2^31 or more from `b` and
/// does not overflow its constant index counter.
pub open spec fn class_lengths_ok(b: Seq<u8>) -> bool {
    !(scan_class(b) is Bad)
}

/// No length that `CodeAttribute::new_with_data` reads from `b` is 2^31 or
/// more.
pub open spec fn code_lengths_ok(b: Seq<u8>) -> bool {
    !(scan_code(b) is Bad)
}

/// How far a read gets, as [`ScanView`] says.
pub enum ScanStep {
    Next(usize),
    End,
    Bad,
}

impl View for ScanStep {
    type V = ScanView;

    open spec fn view(&self) -> ScanView {
        match self {
            ScanStep::Next(p) => ScanView::Next(*p as int),
            ScanStep::End => ScanView::End,
            ScanStep::Bad => ScanView::Bad,
        }
    }
}

fn read_u16(b: &[u8], p: usize) -> (r: usize)
    requires
        p + 2 <= b@.len(),
    ensures
        r == u16_at(b@, p as int),
        r <= 0xFFFF,
{
    b[p] as usize * 0x100 + b[p + 1] as usize
}

fn read_u32(b: &[u8], p: usize) -> (r: u64)
    requires
        p + 4 <= b@.len(),
    ensures
        r == u32_at(b@, p as int),
{
    b[p] as u64 * 0x1000000 + b[p + 1] as u64 * 0x10000 + b[p + 2] as u64 * 0x100 + b[p + 3] as u64
}

fn scan_attributes(b: &[u8], p: usize, n: usize) -> (r: ScanStep)
    requires
        p <= b@.len(),
    ensures
        r@ == scan_attrs(b@, p as int, n as int),
        r matches ScanStep::Next(q) ==> q <= b@.len(),
{
    let ghost p0 = p as int;
    let ghost n0 = n as int;
    let mut pos = p;
    let mut left = n;
    while left > 0
        invariant
            pos <= b@.len(),
            p0 == p as int,
            n0 == n as int,
            scan_attrs(b@, p0, n0) == scan_attrs(b@, pos as int, left as int),
        decreases left,
    {
        if b.len() - pos < 6 {
            return ScanStep::End;
        }
        let l = read_u32(b, pos + 2);
        if l >= 0x80000000 {
            return ScanStep::Bad;
        }
        let l = l as usize;
        if l > b.len() - pos - 6 {
            return ScanStep::End;
        }
        pos = pos + 6 + l;
        left = left - 1;
    }
    ScanStep::Next(pos)
}

fn scan_member_list(b: &[u8], p: usize, n: usize) -> (r: ScanStep)
    requires
        p <= b@.len(),
    ensures
        r@ == scan_members(b@, p as int, n as int),
        r matches ScanStep::Next(q) ==> q <= b@.len(),
{
    let ghost p0 = p as int;
    let ghost n0 = n as int;
    let mut pos = p;
    let mut left = n;
    while left > 0
        invariant
            pos <= b@.len(),
            p0 == p as int,
            n0 == n as int,
            scan_members(b@, p0, n0) == scan_members(b@, pos as int, left as int),
        decreases left,
    {
        if b.len() - pos < 8 {
            return ScanStep::End;
        }
        let count = read_u16(b, pos + 6);
        match scan_attributes(b, pos + 8, count) {
            ScanStep::Next(q) => {
                pos = q;
            },
            other => {
                return other;
            },
        }
        left = left - 1;
    }
    ScanStep::Next(pos)
}

fn entry_size(b: &[u8], p: usize) -> (r: Option<usize>)
    requires
        p < b@.len(),
    ensures
        match r {
            Some(n) => n as int == pool_entry_size(b@, p as int),
            None => pool_entry_size(b@, p as int) < 0,
        },
{
    let t = b[p];
    if t == 0 {
        Some(1)
    } else if t == 1 {
        if b.len() - p >= 3 {
            Some(3 + read_u16(b, p + 1))
        } else {
            None
        }
    } else if t == 7 || t == 8 || t == 16 || t == 19 || t == 20 {
        Some(3)
    } else if t == 15 {
        Some(4)
    } else if t == 3 || t == 4 || t == 9 || t == 10 || t == 11 || t == 12 || t == 17 || t == 18 {
        Some(5)
    } else if t == 5 || t == 6 {
        Some(9)
    } else {
        None
    }
}

fn scan_constants(b: &[u8], p: usize, count: usize) -> (r: ScanStep)
    requires
        p <= b@.len(),
        count <= 0xFFFF,
    ensures
        r@ == scan_pool(b@, p as int, 1, count as int),
        r matches ScanStep::Next(q) ==> q <= b@.len(),
{
    let ghost p0 = p as int;
    let mut pos = p;
    let mut i: usize = 1;
    while i < count
        invariant
            pos <= b@.len(),
            p0 == p as int,
            count <= 0xFFFF,
            i <= count + 1,
            scan_pool(b@, p0, 1, count as int) == scan_pool(b@, pos as int, i as int, count as int),
        decreases count + 1 - i,
    {
        if pos >= b.len() {
            return ScanStep::End;
        }
        let size = match entry_size(b, pos) {
            None => return ScanStep::End,
            Some(n) => n,
        };
        if size > b.len() - pos {
            return ScanStep::End;
        }
        let wide = b[pos] == 5 || b[pos] == 6;
        if wide && i + 2 > 0xFFFF {
            return ScanStep::Bad;
        }
        pos = pos + size;
        i = if wide {
            i + 2
        } else {
            i + 1
        };
    }
    ScanStep::Next(pos)
}

/// Whether `JClassInfo::from_reader` reads no length of 2^31 or more from
/// `b` and does not overflow its index counter, as `class_lengths_ok` says.
pub fn class_lengths_fit(b: &[u8]) -> (r: bool)
    ensures
        r == class_lengths_ok(b@),
{
    if b.len() < 10 {
        return true;
    }
    let p = match scan_constants(b, 10, read_u16(b, 8)) {
        ScanStep::Next(p) => p,
        ScanStep::End => return true,
        ScanStep::Bad => return false,
    };
    if b.len() - p < 8 {
        return true;
    }
    let interfaces = read_u16(b, p + 6);
    if b.len() - p - 8 < 2 * interfaces + 2 {
        return true;
    }
    let q = p + 8 + 2 * interfaces;
    let r = match scan_member_list(b, q + 2, read_u16(b, q)) {
        ScanStep::Next(r) => r,
        ScanStep::End => return true,
        ScanStep::Bad => return false,
    };
    if b.len() - r < 2 {
        return true;
    }
    let t = match scan_member_list(b, r + 2, read_u16(b, r)) {
        ScanStep::Next(t) => t,
        ScanStep::End => return true,
        ScanStep::Bad => return false,
    };
    if b.len() - t < 2 {
        return true;
    }
    match scan_attributes(b, t + 2, read_u16(b, t)) {
        ScanStep::Bad => false,
        _ => true,
    }
}

/// Whether no length that `CodeAttribute::new_with_data` reads from `b` is
/// 2^31 or more, as `code_lengths_ok` says.
pub fn code_lengths_fit(b: &[u8]) -> (r: bool)
    ensures
        r == code_lengths_ok(b@),
{
    if b.len() < 8 {
        return true;
    }
    let l = read_u32(b, 4);
    if l >= 0x80000000 {
        return false;
    }
    let l = l as usize;
    if l > b.len() - 8 || b.len() - 8 - l < 2 {
        return true;
    }
    let p = 8 + l;
    let handlers = read_u16(b, p);
    if b.len() - p - 2 < 8 * handlers + 2 {
        return true;
    }
    let q = p + 2 + 8 * handlers;
    match scan_attributes(b, q + 2, read_u16(b, q)) {
        ScanStep::Bad => false,
        _ => true,
    }
}

} // verus!
