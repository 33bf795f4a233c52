use vstd::prelude::*;
use jclass::constant_pool::ConstantPool;
use crate::class_file::{
    attribute_views, class_parsed, class_written, code_parsed, code_written, member_views,
    parse_class, parse_code, pool_add, pool_entries, pool_holds_at, pool_item, pool_ready, pool_utf8_at,
    last_index_of,
    spec_add_constant, write_class, write_code, AttributeModel, ClassModel, ClassView, CodeModel,
    CodeView, MemberModel, MemberView, NewConstant, PoolEntryView, lemma_last_index_bounds,
    class_lengths_fit, class_lengths_ok, code_lengths_fit, code_lengths_ok,
};
use crate::text::{chars_of, equals_str};

verus! {

/// The opcode `invokestatic`.
pub const INVOKESTATIC: u8 = 184;

/// An entry of a `LocalVariableTable` attribute: where the variable's scope
/// starts, how long it is, and where in the attribute data its length is
/// stored.
#[derive(Debug, Clone, Copy, PartialEq, Eq, Structural)]
pub struct LocalVariableEntry {
    pub start_pc: u16,
    pub length: u16,
    pub length_index: usize,
}

/// The big-endian 16-bit number at `i` of `d`.
pub open spec fn be16(d: Seq<u8>, i: int) -> int {
    d[i] as int * 256 + d[i + 1] as int
}

/// The number of entries read from the table `data`: the count it declares,
/// but no more than its length holds.
pub open spec fn lvt_count(data: Seq<u8>) -> int {
    let declared = be16(data, 0);
    let fits = (data.len() - 2) / 10;
    if declared < fits {
        declared
    } else {
        fits
    }
}

/// The `k`-th entry of the table `data`.
pub open spec fn lvt_entry(data: Seq<u8>, k: int) -> LocalVariableEntry {
    LocalVariableEntry {
        start_pc: be16(data, 2 + 10 * k) as u16,
        length: be16(data, 4 + 10 * k) as u16,
        length_index: (4 + 10 * k) as usize,
    }
}

/// The scope length of the last among the first `n` entries whose variable
/// slot is 0 (the receiver), or -1 when there is none.
pub open spec fn lvt_this_length(data: Seq<u8>, n: int) -> int
    decreases n,
{
    if n <= 0 {
        -1
    } else if be16(data, 10 * n) == 0 {
        be16(data, 4 + 10 * (n - 1))
    } else {
        lvt_this_length(data, n - 1)
    }
}

/// What reading the `LocalVariableTable` attribute data `data` gives: the
/// scope length of the receiver's entry (or -1) and the entries; data
/// shorter than two bytes gives -1 and no entries.
pub open spec fn spec_parse_lvt(data: Seq<u8>) -> (int, Seq<LocalVariableEntry>) {
    if data.len() < 2 {
        (-1, seq![])
    } else {
        let n = lvt_count(data);
        (lvt_this_length(data, n), Seq::new(n as nat, |k: int| lvt_entry(data, k)))
    }
}

fn be16_at(d: &[u8], i: usize) -> (r: u16)
    requires
        i + 1 < d@.len(),
    ensures
        r == be16(d@, i as int),
{
    (d[i] as u16) * 256 + (d[i + 1] as u16)
}

/// Reads the `LocalVariableTable` attribute data `data`, as `spec_parse_lvt` says.
pub fn parse_local_variable_table(data: &[u8]) -> (r: (i32, Vec<LocalVariableEntry>))
    ensures
        r.0 == spec_parse_lvt(data@).0,
        r.1@ == spec_parse_lvt(data@).1,
{
    if data.len() < 2 {
        return (-1, Vec::new());
    }
    let declared = be16_at(data, 0) as usize;
    let fits = (data.len() - 2) / 10;
    let size = if declared < fits { declared } else { fits };
    let mut entries: Vec<LocalVariableEntry> = Vec::new();
    let mut data_index: usize = 2;
    let mut this_length: i32 = -1;
    let mut k: usize = 0;
    while k < size
        invariant
            size == lvt_count(data@),
            size * 10 + 2 <= data@.len(),
            k <= size,
            data_index == 2 + 10 * k,
            this_length == lvt_this_length(data@, k as int),
            entries@ == Seq::new(k as nat, |j: int| lvt_entry(data@, j)),
        decreases size - k,
    {
        let start_pc = be16_at(data, data_index);
        data_index = data_index + 2;
        let length_index = data_index;
        let length = be16_at(data, data_index);
        data_index = data_index + 6;
        let index = be16_at(data, data_index);
        data_index = data_index + 2;
        if index == 0 {
            this_length = length as i32;
        }
        entries.push(LocalVariableEntry { start_pc, length, length_index });
        assert(entries@ =~= Seq::new((k + 1) as nat, |j: int| lvt_entry(data@, j)));
        k = k + 1;
    }
    (this_length, entries)
}

/// The entry `e` ends where the receiver's scope ends.
pub open spec fn lvt_entry_ends_with_method(e: LocalVariableEntry, this_length: int) -> bool {
    e.start_pc + e.length == this_length
}

/// Stretching the entry `e` would overflow a 16-bit number: its end does,
/// or, when it is stretched, its new length does.
pub open spec fn lvt_entry_overflows(e: LocalVariableEntry, this_length: int) -> bool {
    e.start_pc + e.length > 0xffff || (lvt_entry_ends_with_method(e, this_length) && e.length + 3 > 0xffff)
}

/// Stretching the entries of the table `data` would overflow a 16-bit number.
pub open spec fn spec_lvt_overflows(data: Seq<u8>) -> bool {
    let (this_length, entries) = spec_parse_lvt(data);
    this_length != -1 && entries.len() > 0 && exists|k: int|
        0 <= k < entries.len() && #[trigger] lvt_entry_overflows(entries[k], this_length)
}

/// `cur` with the length of `e` stretched by three bytes when `e` ends
/// where the receiver's scope ends.
pub open spec fn lvt_stretch_entry(cur: Seq<u8>, e: LocalVariableEntry, this_length: int) -> Seq<u8> {
    if lvt_entry_ends_with_method(e, this_length) {
        let v = e.length + 3;
        cur.update(e.length_index as int, (v / 256) as u8).update(e.length_index + 1, (v % 256) as u8)
    } else {
        cur
    }
}

/// `data` with the first `k` of `entries` stretched.
pub open spec fn lvt_stretch_upto(data: Seq<u8>, entries: Seq<LocalVariableEntry>, this_length: int, k: int) -> Seq<u8>
    decreases k,
{
    if k <= 0 {
        data
    } else {
        lvt_stretch_entry(lvt_stretch_upto(data, entries, this_length, k - 1), entries[k - 1], this_length)
    }
}

/// The table `data` after three bytes are added to the scope of each
/// variable that ends where the receiver's scope ends; `None` when the
/// table has no receiver entry or no entries, so that it is left alone.
pub open spec fn spec_extend_lvt(data: Seq<u8>) -> Option<Seq<u8>> {
    let (this_length, entries) = spec_parse_lvt(data);
    if this_length == -1 || entries.len() == 0 {
        None
    } else {
        Some(lvt_stretch_upto(data, entries, this_length, entries.len() as int))
    }
}

/// Whether stretching the table `data` would overflow, as `spec_lvt_overflows` says.
pub fn local_variable_table_overflows(data: &[u8]) -> (r: bool)
    ensures
        r == spec_lvt_overflows(data@),
{
    let (this_length, entries) = parse_local_variable_table(data);
    if this_length == -1 || entries.len() == 0 {
        return false;
    }
    let mut k: usize = 0;
    while k < entries.len()
        invariant
            k <= entries.len(),
            this_length == spec_parse_lvt(data@).0,
            entries@ == spec_parse_lvt(data@).1,
            this_length != -1,
            entries@.len() > 0,
            forall|j: int| 0 <= j < k ==> !#[trigger] lvt_entry_overflows(entries@[j], this_length as int),
        decreases entries.len() - k,
    {
        let e = entries[k];
        let end = e.start_pc as u32 + e.length as u32;
        if end > 0xffff || (end as i32 == this_length && e.length as u32 + 3 > 0xffff) {
            assert(entries@[k as int] == e);
            assert(lvt_entry_overflows(entries@[k as int], this_length as int));
            return true;
        }
        k = k + 1;
    }
    false
}

/// Adds three bytes to the scope of each variable of the table `data` that
/// ends where the receiver's scope ends, as `spec_extend_lvt` says; answers
/// whether the table was one to extend.
pub fn extend_local_variable_table(data: &mut Vec<u8>) -> (extended: bool)
    requires
        !spec_lvt_overflows(old(data)@),
    ensures
        match spec_extend_lvt(old(data)@) {
            None => !extended && final(data)@ == old(data)@,
            Some(d) => extended && final(data)@ == d,
        },
{
    let (this_length, table) = parse_local_variable_table(data.as_slice());
    if this_length == -1 || table.len() == 0 {
        return false;
    }
    let ghost orig = data@;
    let mut k: usize = 0;
    while k < table.len()
        invariant
            k <= table.len(),
            this_length == spec_parse_lvt(orig).0,
            table@ == spec_parse_lvt(orig).1,
            table@.len() > 0,
            this_length != -1,
            !spec_lvt_overflows(orig),
            data@.len() == orig.len(),
            data@ == lvt_stretch_upto(orig, table@, this_length as int, k as int),
        decreases table.len() - k,
    {
        let item = table[k];
        assert(table@[k as int] == item);
        assert(item.length_index + 1 < orig.len()) by {
            assert(item == lvt_entry(orig, k as int));
            assert(lvt_count(orig) * 10 + 2 <= orig.len()) by (nonlinear_arith)
                requires
                    lvt_count(orig) <= (orig.len() - 2) / 10,
                    orig.len() >= 2,
            ;
        }
        assert(!lvt_entry_overflows(table@[k as int], this_length as int));
        if (item.start_pc as i32) + (item.length as i32) == this_length {
            let v = item.length + 3;
            data.set(item.length_index, (v / 256) as u8);
            data.set(item.length_index + 1, (v % 256) as u8);
        }
        assert(data@ =~= lvt_stretch_upto(orig, table@, this_length as int, k + 1));
        k = k + 1;
    }
    true
}

/// `codes` with its last instruction replaced by a static call of the
/// method at `method_index` of the constant pool, followed by the replaced
/// instruction.
pub open spec fn spec_wrap_return(codes: Seq<u8>, method_index: u16) -> Seq<u8> {
    codes.update(codes.len() - 1, INVOKESTATIC) + seq![
        (method_index / 256) as u8,
        (method_index % 256) as u8,
        codes.last(),
    ]
}

/// Makes the method whose code is `codes` pass its result through the
/// static method at `method_index` before returning, as `spec_wrap_return` says.
pub fn wrap_return_code(codes: &mut Vec<u8>, method_index: u16)
    requires
        old(codes)@.len() > 0,
    ensures
        final(codes)@ == spec_wrap_return(old(codes)@, method_index),
{
    let end_code_index = codes.len() - 1;
    let end_code = codes[end_code_index];
    codes.set(end_code_index, INVOKESTATIC);
    codes.push((method_index / 256) as u8);
    codes.push((method_index % 256) as u8);
    codes.push(end_code);
    assert(codes@ =~= spec_wrap_return(old(codes)@, method_index));
}

/// An attribute of a `Code` attribute: whether it is a
/// `LocalVariableTable`, and its data.
#[derive(Debug)]
pub struct CodeSubAttribute {
    pub is_local_variable_table: bool,
    pub data: Vec<u8>,
}

/// The content of a list of code sub-attributes.
pub open spec fn attr_views(v: Seq<CodeSubAttribute>) -> Seq<(bool, Seq<u8>)> {
    v.map_values(|a: CodeSubAttribute| (a.is_local_variable_table, a.data@))
}

/// The sub-attributes `attrs` after their local variable tables from the
/// `i`-th on are extended; the first table that is not one to extend ends
/// the work and leaves it and the rest as they are.
pub open spec fn extend_attrs_from(attrs: Seq<(bool, Seq<u8>)>, i: int) -> Seq<(bool, Seq<u8>)>
    decreases attrs.len() - i,
{
    if i < 0 || i >= attrs.len() {
        attrs
    } else if !attrs[i].0 {
        extend_attrs_from(attrs, i + 1)
    } else {
        match spec_extend_lvt(attrs[i].1) {
            None => attrs,
            Some(d) => extend_attrs_from(attrs.update(i, (true, d)), i + 1),
        }
    }
}

/// Extending the local variable tables of `attrs` from the `i`-th on, as
/// `extend_attrs_from` does, overflows no 16-bit number.
pub open spec fn attrs_stretch_safe_from(attrs: Seq<(bool, Seq<u8>)>, i: int) -> bool
    decreases attrs.len() - i,
{
    if i < 0 || i >= attrs.len() {
        true
    } else if !attrs[i].0 {
        attrs_stretch_safe_from(attrs, i + 1)
    } else {
        match spec_extend_lvt(attrs[i].1) {
            None => true,
            Some(d) => !spec_lvt_overflows(attrs[i].1) && attrs_stretch_safe_from(
                attrs.update(i, (true, d)),
                i + 1,
            ),
        }
    }
}

/// Makes the code of `java.net.URL::openConnection` pass its result
/// through the static method at `method_index` before it returns: the last
/// instruction is wrapped as `wrap_return_code` does, and the scopes in its
/// local variable tables that end at the end of the code are stretched over
/// the three added bytes, as `extend_attrs_from` says.
pub fn extend_url_code(codes: &mut Vec<u8>, attributes: &mut Vec<CodeSubAttribute>, method_index: u16)
    requires
        old(codes)@.len() > 0,
        attrs_stretch_safe_from(attr_views(old(attributes)@), 0),
    ensures
        final(codes)@ == spec_wrap_return(old(codes)@, method_index),
        attr_views(final(attributes)@) == extend_attrs_from(attr_views(old(attributes)@), 0),
{
    wrap_return_code(codes, method_index);
    let mut i: usize = 0;
    while i < attributes.len()
        invariant
            i <= attributes.len(),
            codes@ == spec_wrap_return(old(codes)@, method_index),
            extend_attrs_from(attr_views(attributes@), i as int) == extend_attrs_from(
                attr_views(old(attributes)@),
                0,
            ),
            attrs_stretch_safe_from(attr_views(attributes@), i as int),
        decreases attributes.len() - i,
    {
        if attributes[i].is_local_variable_table {
            let mut d = vstd::slice::slice_to_vec(attributes[i].data.as_slice());
            if !extend_local_variable_table(&mut d) {
                return;
            }
            let ghost before = attr_views(attributes@);
            attributes.set(i, CodeSubAttribute { is_local_variable_table: true, data: d });
            assert(attr_views(attributes@) =~= before.update(i as int, (true, d@)));
        }
        i = i + 1;
    }
}

/// Whether extending the local variable tables of `attributes` overflows
/// no 16-bit number, as `attrs_stretch_safe_from` says.
pub fn url_code_stretch_safe(attributes: &Vec<CodeSubAttribute>) -> (r: bool)
    ensures
        r == attrs_stretch_safe_from(attr_views(attributes@), 0),
{
    let ghost orig = attr_views(attributes@);
    let ghost mut cur = orig;
    let mut i: usize = 0;
    while i < attributes.len()
        invariant
            i <= attributes.len(),
            cur.len() == attributes@.len(),
            orig == attr_views(attributes@),
            forall|j: int| i <= j < cur.len() ==> cur[j] == attr_views(attributes@)[j],
            attrs_stretch_safe_from(cur, i as int) == attrs_stretch_safe_from(orig, 0),
        decreases attributes.len() - i,
    {
        if attributes[i].is_local_variable_table {
            let data = attributes[i].data.as_slice();
            assert(cur[i as int] == (true, data@));
            if local_variable_table_overflows(data) {
                assert(spec_extend_lvt(data@) is Some);
                assert(!attrs_stretch_safe_from(cur, i as int));
                return false;
            }
            let mut d = vstd::slice::slice_to_vec(data);
            if !extend_local_variable_table(&mut d) {
                assert(attrs_stretch_safe_from(cur, i as int));
                return true;
            }
            proof {
                cur = cur.update(i as int, (true, d@));
            }
        }
        i = i + 1;
    }
    true
}


/// The names of the static method that `openConnection` hands its result
/// to: its class (internal form), its name and its descriptor.
pub struct UrlHook {
    pub class: String,
    pub method: String,
    pub descriptor: String,
}

/// The content of a [`UrlHook`].
pub struct UrlHookView {
    pub class: Seq<char>,
    pub method: Seq<char>,
    pub descriptor: Seq<char>,
}

impl View for UrlHook {
    type V = UrlHookView;

    open spec fn view(&self) -> UrlHookView {
        UrlHookView { class: self.class@, method: self.method@, descriptor: self.descriptor@ }
    }
}

/// The name of the method whose result is passed through the hook.
pub const URL_OPEN_CONNECTION_METHOD_NAME: &'static str = "openConnection";

/// The name of a method's bytecode attribute.
pub const CODE_ATTRIBUTE_NAME: &'static str = "Code";

/// The name of the attribute that describes a method's local variables.
pub const LOCAL_VARIABLE_TABLE_NAME: &'static str = "LocalVariableTable";

/// The constant at `index` of the pool `pool`, as `jclass` looks it up, is
/// the UTF-8 text `name`.
pub open spec fn names_at(pool: Seq<PoolEntryView>, index: u16, name: Seq<char>) -> bool {
    pool_item(pool, index) == PoolEntryView::Utf8(name)
}

/// What adding `v` to the pool `e` gives, or `None` when `v` is to be
/// appended and the pool's 16-bit count is full.  A constant that is only
/// found at the pool's highest index counts as missing here: `jclass` looks
/// constants up below that index only.
pub open spec fn add_checked(e: Seq<PoolEntryView>, v: PoolEntryView) -> Option<(Seq<PoolEntryView>, int)> {
    if e.len() <= 0xFFFF || last_index_of(e.drop_last(), v) >= 0 {
        Some(spec_add_constant(e, v))
    } else {
        None
    }
}

/// The pool after the hook's class, method and descriptor texts, its class,
/// its name-and-type and its method reference are added in this order, and
/// the index of the method reference; `None` when one of them does not fit.
pub open spec fn url_constants(pool: Seq<PoolEntryView>, h: UrlHookView) -> Option<(Seq<PoolEntryView>, int)> {
    match add_checked(pool, PoolEntryView::Utf8(h.class)) {
        None => None,
        Some((p1, class_text)) => match add_checked(p1, PoolEntryView::Utf8(h.method)) {
            None => None,
            Some((p2, method_text)) => match add_checked(p2, PoolEntryView::Utf8(h.descriptor)) {
                None => None,
                Some((p3, desc_text)) => match add_checked(p3, PoolEntryView::Class(class_text as u16)) {
                    None => None,
                    Some((p4, class)) => match add_checked(
                        p4,
                        PoolEntryView::NameAndType(method_text as u16, desc_text as u16),
                    ) {
                        None => None,
                        Some((p5, name_type)) => add_checked(
                            p5,
                            PoolEntryView::Methodref(class as u16, name_type as u16),
                        ),
                    },
                },
            },
        },
    }
}

/// The attributes of a code attribute as the local variable table rewrite
/// sees them: whether each is a `LocalVariableTable`, and its data.
pub open spec fn code_subs(pool: Seq<PoolEntryView>, attrs: Seq<(u16, Seq<u8>)>) -> Seq<(bool, Seq<u8>)> {
    attrs.map_values(|a: (u16, Seq<u8>)| (names_at(pool, a.0, LOCAL_VARIABLE_TABLE_NAME@), a.1))
}

/// What becomes of the data of a `Code` attribute: `None` when the rewrite
/// cannot be done (a declared length too large to read, no instruction to
/// wrap, or a stretched scope that would overflow), `Some(None)` when the attribute stays as it is (its data is
/// not read or not written back by `jclass`), and otherwise its new data:
/// the return wrapped as `spec_wrap_return` says and the local variable
/// tables stretched as `extend_attrs_from` says.
pub open spec fn code_rewrite(pool: Seq<PoolEntryView>, data: Seq<u8>, method_index: u16) -> Option<Option<Seq<u8>>> {
    if !code_lengths_ok(data) {
        None
    } else {
        match code_parsed(data) {
        None => Some(None),
        Some(c) => {
            let subs = code_subs(pool, c.attributes);
            if c.codes.len() == 0 || !attrs_stretch_safe_from(subs, 0) {
                None
            } else {
                let ext = extend_attrs_from(subs, 0);
                Some(
                    code_written(
                        CodeView {
                            codes: spec_wrap_return(c.codes, method_index),
                            attributes: Seq::new(
                                c.attributes.len(),
                                |k: int| (c.attributes[k].0, ext[k].1),
                            ),
                            ..c
                        },
                    ),
                )
            }
        },
    }
    }
}

/// What becomes of one attribute of `openConnection`: only its `Code`
/// attribute changes, as `code_rewrite` says.
pub open spec fn attr_rewrite(pool: Seq<PoolEntryView>, a: (u16, Seq<u8>), method_index: u16) -> Option<(u16, Seq<u8>)> {
    if names_at(pool, a.0, CODE_ATTRIBUTE_NAME@) {
        match code_rewrite(pool, a.1, method_index) {
            None => None,
            Some(None) => Some(a),
            Some(Some(b)) => Some((a.0, b)),
        }
    } else {
        Some(a)
    }
}

/// The attributes of `openConnection` after the rewrite, or `None` when one
/// of them cannot be rewritten.
pub open spec fn attrs_rewrite(pool: Seq<PoolEntryView>, attrs: Seq<(u16, Seq<u8>)>, method_index: u16) -> Option<Seq<(u16, Seq<u8>)>> {
    if forall|k: int| 0 <= k < attrs.len() ==> (#[trigger] attr_rewrite(pool, attrs[k], method_index)) is Some {
        Some(Seq::new(attrs.len(), |k: int| attr_rewrite(pool, attrs[k], method_index)->Some_0))
    } else {
        None
    }
}

/// What becomes of a method: only a method named `openConnection` changes.
pub open spec fn method_rewrite(pool: Seq<PoolEntryView>, m: MemberView, method_index: u16) -> Option<MemberView> {
    if names_at(pool, m.name, URL_OPEN_CONNECTION_METHOD_NAME@) {
        match attrs_rewrite(pool, m.attributes, method_index) {
            None => None,
            Some(a) => Some(MemberView { attributes: a, ..m }),
        }
    } else {
        Some(m)
    }
}

/// The methods after the rewrite, or `None` when one cannot be rewritten.
pub open spec fn methods_rewrite(pool: Seq<PoolEntryView>, ms: Seq<MemberView>, method_index: u16) -> Option<Seq<MemberView>> {
    if forall|k: int| 0 <= k < ms.len() ==> (#[trigger] method_rewrite(pool, ms[k], method_index)) is Some {
        Some(Seq::new(ms.len(), |k: int| method_rewrite(pool, ms[k], method_index)->Some_0))
    } else {
        None
    }
}

/// The class `c` with the result of `java.net.URL::openConnection` passed
/// through the hook `h`: the hook's constants are added to the pool and the
/// methods rewritten.  `None` when a constant that has to be appended does
/// not fit the pool's count or a method cannot be rewritten.
pub open spec fn spec_extend_url_class(c: ClassView, h: UrlHookView) -> Option<ClassView> {
    match url_constants(c.pool, h) {
        None => None,
        Some((pool, method_index)) => match methods_rewrite(pool, c.methods, method_index as u16) {
            None => None,
            Some(ms) => Some(ClassView { pool, methods: ms, ..c }),
        },
    }
}

/// The class file `bytes` of `java.net.URL` rewritten as
/// `spec_extend_url_class` says and written back, or `None` (also when it
/// declares a length too large for `jclass` to read).
pub open spec fn spec_url_extended(bytes: Seq<u8>, h: UrlHookView) -> Option<Seq<u8>> {
    if !class_lengths_ok(bytes) {
        None
    } else {
        match class_parsed(bytes) {
            None => None,
            Some(c) => match spec_extend_url_class(c, h) {
                None => None,
                Some(d) => class_written(d),
            },
        }
    }
}

/// Whether the constant at `index` of `pool` is the UTF-8 text `name`.
fn pool_names(pool: &ConstantPool, index: u16, name: &str) -> (r: bool)
    requires
        pool_ready(*pool),
    ensures
        r == names_at(pool_entries(*pool), index, name@),
{
    match pool_utf8_at(pool, index) {
        None => false,
        Some(t) => {
            let c = chars_of(t.as_str());
            equals_str(c.as_slice(), name)
        },
    }
}

/// A copy of a list of attributes.
fn copy_attributes(v: &Vec<AttributeModel>) -> (r: Vec<AttributeModel>)
    ensures
        attribute_views(r@) == attribute_views(v@),
{
    let mut r: Vec<AttributeModel> = Vec::new();
    let mut i: usize = 0;
    while i < v.len()
        invariant
            i <= v.len(),
            attribute_views(r@) == attribute_views(v@).take(i as int),
        decreases v.len() - i,
    {
        let ghost before = r@;
        let a = AttributeModel { name: v[i].name, data: vstd::slice::slice_to_vec(v[i].data.as_slice()) };
        assert((a.name, a.data@) == attribute_views(v@)[i as int]);
        r.push(a);
        assert(attribute_views(r@) =~= attribute_views(before).push((a.name, a.data@)));
        assert(attribute_views(v@).take(i + 1) =~= attribute_views(v@).take(i as int).push(
            attribute_views(v@)[i as int],
        ));
        i = i + 1;
    }
    assert(attribute_views(v@).take(v.len() as int) =~= attribute_views(v@));
    r
}

proof fn lemma_extend_attrs_shape(a: Seq<(bool, Seq<u8>)>, i: int)
    ensures
        extend_attrs_from(a, i).len() == a.len(),
        forall|k: int| 0 <= k < a.len() ==> (#[trigger] extend_attrs_from(a, i)[k]).0 == a[k].0,
    decreases a.len() - i,
{
    if i < 0 || i >= a.len() {
    } else if !a[i].0 {
        lemma_extend_attrs_shape(a, i + 1);
    } else {
        match spec_extend_lvt(a[i].1) {
            None => {},
            Some(d) => {
                let b = a.update(i, (true, d));
                lemma_extend_attrs_shape(b, i + 1);
                assert forall|k: int| 0 <= k < a.len() implies (#[trigger] extend_attrs_from(a, i)[k]).0 == a[k].0 by {
                    assert(extend_attrs_from(a, i)[k].0 == b[k].0);
                }
            },
        }
    }
}

/// Rewrites the data of one `Code` attribute as `code_rewrite` says.
fn rewrite_code(pool: &ConstantPool, data: &[u8], method_index: u16) -> (r: Option<Option<Vec<u8>>>)
    requires
        pool_ready(*pool),
    ensures
        match r {
            None => code_rewrite(pool_entries(*pool), data@, method_index) is None,
            Some(None) => code_rewrite(pool_entries(*pool), data@, method_index) == Some(
                None::<Seq<u8>>,
            ),
            Some(Some(b)) => code_rewrite(pool_entries(*pool), data@, method_index) == Some(
                Some(b@),
            ),
        },
{
    let ghost e = pool_entries(*pool);
    if !code_lengths_fit(data) {
        return None;
    }
    let code = match parse_code(data) {
        None => return Some(None),
        Some(c) => c,
    };
    let ghost cv = code@;
    if code.codes.len() == 0 {
        return None;
    }
    let mut subs: Vec<CodeSubAttribute> = Vec::new();
    let mut i: usize = 0;
    while i < code.attributes.len()
        invariant
            i <= code.attributes.len(),
            pool_entries(*pool) == e,
            pool_ready(*pool),
            cv == code@,
            attr_views(subs@) == code_subs(e, cv.attributes).take(i as int),
        decreases code.attributes.len() - i,
    {
        let is_table = pool_names(pool, code.attributes[i].name, LOCAL_VARIABLE_TABLE_NAME);
        let d = vstd::slice::slice_to_vec(code.attributes[i].data.as_slice());
        let ghost before = subs@;
        let sub = CodeSubAttribute { is_local_variable_table: is_table, data: d };
        assert(cv.attributes[i as int] == (code.attributes@[i as int].name, code.attributes@[i as int].data@));
        assert((sub.is_local_variable_table, sub.data@) == code_subs(e, cv.attributes)[i as int]);
        subs.push(sub);
        assert(attr_views(subs@) =~= attr_views(before).push((sub.is_local_variable_table, sub.data@)));
        assert(code_subs(e, cv.attributes).take(i + 1) =~= code_subs(e, cv.attributes).take(i as int).push(
            code_subs(e, cv.attributes)[i as int],
        ));
        i = i + 1;
    }
    assert(code_subs(e, cv.attributes).take(code.attributes.len() as int) =~= code_subs(e, cv.attributes));
    if !url_code_stretch_safe(&subs) {
        return None;
    }
    let CodeModel { max_stack, max_locals, mut codes, exceptions, attributes } = code;
    extend_url_code(&mut codes, &mut subs, method_index);
    let ghost ext = extend_attrs_from(code_subs(e, cv.attributes), 0);
    proof {
        lemma_extend_attrs_shape(code_subs(e, cv.attributes), 0);
    }
    assert(attr_views(subs@) == ext);
    assert(subs@.len() == attributes@.len());
    let mut merged: Vec<AttributeModel> = Vec::new();
    let mut j: usize = 0;
    while j < attributes.len()
        invariant
            j <= attributes.len(),
            subs@.len() == attributes@.len(),
            attr_views(subs@) == ext,
            attribute_views(attributes@) == cv.attributes,
            attribute_views(merged@) == Seq::new(
                cv.attributes.len(),
                |k: int| (cv.attributes[k].0, ext[k].1),
            ).take(j as int),
        decreases attributes.len() - j,
    {
        let d = vstd::slice::slice_to_vec(subs[j].data.as_slice());
        let ghost before = merged@;
        let a = AttributeModel { name: attributes[j].name, data: d };
        let ghost target = Seq::new(cv.attributes.len(), |k: int| (cv.attributes[k].0, ext[k].1));
        assert(attr_views(subs@)[j as int] == (subs@[j as int].is_local_variable_table, subs@[j as int].data@));
        assert(attribute_views(attributes@)[j as int] == (attributes@[j as int].name, attributes@[j as int].data@));
        assert((a.name, a.data@) == target[j as int]);
        merged.push(a);
        assert(attribute_views(merged@) =~= attribute_views(before).push((a.name, a.data@)));
        assert(target.take(j + 1) =~= target.take(j as int).push(target[j as int]));
        j = j + 1;
    }
    let out = CodeModel { max_stack, max_locals, codes, exceptions, attributes: merged };
    assert(Seq::new(cv.attributes.len(), |k: int| (cv.attributes[k].0, ext[k].1)).take(
        attributes@.len() as int,
    ) =~= Seq::new(cv.attributes.len(), |k: int| (cv.attributes[k].0, ext[k].1)));
    assert(out@ == (CodeView {
        codes: spec_wrap_return(cv.codes, method_index),
        attributes: Seq::new(cv.attributes.len(), |k: int| (cv.attributes[k].0, ext[k].1)),
        ..cv
    }));
    match write_code(out) {
        None => Some(None),
        Some(b) => Some(Some(b)),
    }
}

/// Rewrites the attributes of `openConnection` as `attrs_rewrite` says.
fn rewrite_attributes(pool: &ConstantPool, attrs: &Vec<AttributeModel>, method_index: u16) -> (r: Option<Vec<AttributeModel>>)
    requires
        pool_ready(*pool),
    ensures
        match r {
            Some(v) => attrs_rewrite(pool_entries(*pool), attribute_views(attrs@), method_index) == Some(
                attribute_views(v@),
            ),
            None => attrs_rewrite(pool_entries(*pool), attribute_views(attrs@), method_index) is None,
        },
{
    let ghost e = pool_entries(*pool);
    let ghost av = attribute_views(attrs@);
    let mut out: Vec<AttributeModel> = Vec::new();
    let mut i: usize = 0;
    while i < attrs.len()
        invariant
            i <= attrs.len(),
            pool_entries(*pool) == e,
            pool_ready(*pool),
            av == attribute_views(attrs@),
            forall|k: int| 0 <= k < i ==> (#[trigger] attr_rewrite(e, av[k], method_index)) is Some,
            attribute_views(out@) == Seq::new(
                av.len(),
                |k: int| attr_rewrite(e, av[k], method_index)->Some_0,
            ).take(i as int),
        decreases attrs.len() - i,
    {
        let name = attrs[i].name;
        let item = if pool_names(pool, name, CODE_ATTRIBUTE_NAME) {
            match rewrite_code(pool, attrs[i].data.as_slice(), method_index) {
                None => {
                    assert(attr_rewrite(e, av[i as int], method_index) is None);
                    return None;
                },
                Some(None) => AttributeModel { name, data: vstd::slice::slice_to_vec(attrs[i].data.as_slice()) },
                Some(Some(b)) => AttributeModel { name, data: b },
            }
        } else {
            AttributeModel { name, data: vstd::slice::slice_to_vec(attrs[i].data.as_slice()) }
        };
        assert(av[i as int] == (attrs@[i as int].name, attrs@[i as int].data@));
        assert(attr_rewrite(e, av[i as int], method_index) == Some((item.name, item.data@)));
        let ghost before = out@;
        let ghost target = Seq::new(av.len(), |k: int| attr_rewrite(e, av[k], method_index)->Some_0);
        out.push(item);
        assert(attribute_views(out@) =~= attribute_views(before).push((item.name, item.data@)));
        assert(target.take(i + 1) =~= target.take(i as int).push(target[i as int]));
        i = i + 1;
    }
    assert(attribute_views(out@) =~= Seq::new(
        av.len(),
        |k: int| attr_rewrite(e, av[k], method_index)->Some_0,
    ));
    Some(out)
}

/// Rewrites the methods as `methods_rewrite` says.
fn rewrite_methods(pool: &ConstantPool, ms: &Vec<MemberModel>, method_index: u16) -> (r: Option<Vec<MemberModel>>)
    requires
        pool_ready(*pool),
    ensures
        match r {
            Some(v) => methods_rewrite(pool_entries(*pool), member_views(ms@), method_index) == Some(
                member_views(v@),
            ),
            None => methods_rewrite(pool_entries(*pool), member_views(ms@), method_index) is None,
        },
{
    let ghost e = pool_entries(*pool);
    let ghost mv = member_views(ms@);
    let mut out: Vec<MemberModel> = Vec::new();
    let mut i: usize = 0;
    while i < ms.len()
        invariant
            i <= ms.len(),
            pool_entries(*pool) == e,
            pool_ready(*pool),
            mv == member_views(ms@),
            forall|k: int| 0 <= k < i ==> (#[trigger] method_rewrite(e, mv[k], method_index)) is Some,
            member_views(out@) == Seq::new(
                mv.len(),
                |k: int| method_rewrite(e, mv[k], method_index)->Some_0,
            ).take(i as int),
        decreases ms.len() - i,
    {
        let m = &ms[i];
        let attributes = if pool_names(pool, m.name, URL_OPEN_CONNECTION_METHOD_NAME) {
            match rewrite_attributes(pool, &m.attributes, method_index) {
                None => {
                    assert(method_rewrite(e, mv[i as int], method_index) is None);
                    return None;
                },
                Some(a) => a,
            }
        } else {
            copy_attributes(&m.attributes)
        };
        let item = MemberModel {
            access_flags: m.access_flags,
            name: m.name,
            descriptor: m.descriptor,
            attributes,
        };
        assert(mv[i as int] == ms@[i as int]@);
        assert(method_rewrite(e, mv[i as int], method_index) == Some(item@));
        let ghost before = out@;
        let ghost target = Seq::new(mv.len(), |k: int| method_rewrite(e, mv[k], method_index)->Some_0);
        out.push(item);
        assert(member_views(out@) =~= member_views(before).push(item@));
        assert(target.take(i + 1) =~= target.take(i as int).push(target[i as int]));
        i = i + 1;
    }
    assert(member_views(out@) =~= Seq::new(
        mv.len(),
        |k: int| method_rewrite(e, mv[k], method_index)->Some_0,
    ));
    Some(out)
}

proof fn lemma_last_index_found(e: Seq<PoolEntryView>, v: PoolEntryView, j: int)
    requires
        0 <= j < e.len(),
        e[j] == v,
    ensures
        last_index_of(e, v) >= 0,
    decreases e.len(),
{
    if e.last() != v {
        lemma_last_index_found(e.drop_last(), v, j);
    }
}

proof fn lemma_last_index_missing(e: Seq<PoolEntryView>, v: PoolEntryView)
    requires
        forall|j: int| 0 <= j < e.len() ==> e[j] != v,
    ensures
        last_index_of(e, v) < 0,
    decreases e.len(),
{
    if e.len() > 0 {
        lemma_last_index_missing(e.drop_last(), v);
    }
}

/// Adds `value` to the pool as `add_checked` says.
fn add_constant_checked(pool: &mut ConstantPool, value: NewConstant) -> (r: Option<u16>)
    requires
        pool_ready(*old(pool)),
    ensures
        pool_ready(*final(pool)),
        match r {
            Some(i) => add_checked(pool_entries(*old(pool)), value@) == Some(
                (pool_entries(*final(pool)), i as int),
            ),
            None => add_checked(pool_entries(*old(pool)), value@) is None,
        },
{
    let ghost e = pool_entries(*pool);
    proof {
        lemma_last_index_bounds(e, value@);
    }
    let count = crate::class_file::pool_count(pool);
    if count < 0xFFFF {
        return Some(pool_add(pool, value));
    }
    let mut i: u16 = 0;
    while i < count
        invariant
            i <= count,
            count as int + 1 == e.len(),
            pool_ready(*pool),
            pool_entries(*pool) == e,
            e == pool_entries(*old(pool)),
            forall|j: int| 0 <= j < i ==> e[j] != value@,
        decreases count - i,
    {
        if pool_holds_at(pool, i, &value) {
            proof {
                assert(e[i as int] == value@);
                assert(e.drop_last()[i as int] == value@);
                lemma_last_index_found(e.drop_last(), value@, i as int);
                lemma_last_index_found(e, value@, i as int);
            }
            return Some(pool_add(pool, value));
        }
        i = i + 1;
    }
    proof {
        assert forall|j: int| 0 <= j < e.drop_last().len() implies e.drop_last()[j] != value@ by {
            assert(e.drop_last()[j] == e[j]);
        }
        lemma_last_index_missing(e.drop_last(), value@);
    }
    None
}

/// Adds the hook's constants to the pool as `url_constants` says and
/// answers the index of its method reference.
fn add_url_constants(pool: &mut ConstantPool, hook: &UrlHook) -> (r: Option<u16>)
    requires
        pool_ready(*old(pool)),
    ensures
        pool_ready(*final(pool)),
        match r {
            Some(i) => url_constants(pool_entries(*old(pool)), hook@) == Some(
                (pool_entries(*final(pool)), i as int),
            ),
            None => url_constants(pool_entries(*old(pool)), hook@) is None,
        },
{
    let class_text = match add_constant_checked(pool, NewConstant::Utf8(hook.class.as_str().to_owned())) {
        None => return None,
        Some(i) => i,
    };
    let method_text = match add_constant_checked(pool, NewConstant::Utf8(hook.method.as_str().to_owned())) {
        None => return None,
        Some(i) => i,
    };
    let desc_text = match add_constant_checked(pool, NewConstant::Utf8(hook.descriptor.as_str().to_owned())) {
        None => return None,
        Some(i) => i,
    };
    let class = match add_constant_checked(pool, NewConstant::Class(class_text)) {
        None => return None,
        Some(i) => i,
    };
    let name_type = match add_constant_checked(pool, NewConstant::NameAndType(method_text, desc_text)) {
        None => return None,
        Some(i) => i,
    };
    add_constant_checked(pool, NewConstant::Methodref(class, name_type))
}

/// Passes the result of `java.net.URL::openConnection` in the class `c`
/// through the hook `hook`, as `spec_extend_url_class` says.
pub fn extend_url_class(c: ClassModel, hook: &UrlHook) -> (r: Option<ClassModel>)
    requires
        pool_ready(c.constant_pool),
    ensures
        match r {
            Some(d) => spec_extend_url_class(c@, hook@) == Some(d@) && pool_ready(d.constant_pool),
            None => spec_extend_url_class(c@, hook@) is None,
        },
{
    let ClassModel {
        minor_version,
        major_version,
        mut constant_pool,
        access_flags,
        class_index,
        superclass_index,
        interfaces,
        fields,
        methods,
        attributes,
    } = c;
    let method_index = match add_url_constants(&mut constant_pool, hook) {
        None => return None,
        Some(i) => i,
    };
    let new_methods = match rewrite_methods(&constant_pool, &methods, method_index) {
        None => return None,
        Some(m) => m,
    };
    Some(
        ClassModel {
            minor_version,
            major_version,
            constant_pool,
            access_flags,
            class_index,
            superclass_index,
            interfaces,
            fields,
            methods: new_methods,
            attributes,
        },
    )
}

/// The class file `class_data` of `java.net.URL` with the result of
/// `openConnection` passed through `hook`, as `spec_url_extended` says.
pub fn url_extended_processing(class_data: &[u8], hook: &UrlHook) -> (r: Option<Vec<u8>>)
    ensures
        match r {
            Some(b) => spec_url_extended(class_data@, hook@) == Some(b@),
            None => spec_url_extended(class_data@, hook@) is None,
        },
{
    if !class_lengths_fit(class_data) {
        return None;
    }
    let class = match parse_class(class_data) {
        None => return None,
        Some(c) => c,
    };
    match extend_url_class(class, hook) {
        None => None,
        Some(d) => write_class(d),
    }
}


/// The constant at `mi` of the pool `p` is a method reference to the hook
/// `h`: its class constant names the hook's class and its name-and-type
/// constant holds the hook's name and descriptor.
pub open spec fn hook_reference(p: Seq<PoolEntryView>, mi: int, h: UrlHookView) -> bool {
    0 <= mi < p.len() && match p[mi] {
        PoolEntryView::Methodref(ci, nt) => 0 <= ci < p.len() && 0 <= nt < p.len() && match (
            p[ci as int],
            p[nt as int],
        ) {
            (PoolEntryView::Class(ct), PoolEntryView::NameAndType(mt, dt)) => 0 <= ct < p.len() && 0
                <= mt < p.len() && 0 <= dt < p.len() && p[ct as int] == PoolEntryView::Utf8(h.class)
                && p[mt as int] == PoolEntryView::Utf8(h.method) && p[dt as int] == PoolEntryView::Utf8(
                h.descriptor,
            ),
            _ => false,
        },
        _ => false,
    }
}

proof fn lemma_last_index_holds(e: Seq<PoolEntryView>, v: PoolEntryView)
    requires
        last_index_of(e, v) >= 0,
    ensures
        last_index_of(e, v) < e.len(),
        e[last_index_of(e, v)] == v,
    decreases e.len(),
{
    if e.last() != v {
        lemma_last_index_holds(e.drop_last(), v);
    }
}

proof fn lemma_add_keeps_and_holds(e: Seq<PoolEntryView>, v: PoolEntryView)
    ensures
        spec_add_constant(e, v).0.len() >= e.len(),
        forall|i: int| 0 <= i < e.len() ==> #[trigger] spec_add_constant(e, v).0[i] == e[i],
        0 <= spec_add_constant(e, v).1 < spec_add_constant(e, v).0.len(),
        spec_add_constant(e, v).0[spec_add_constant(e, v).1] == v,
{
    lemma_last_index_bounds(e, v);
    if last_index_of(e, v) >= 0 {
        lemma_last_index_holds(e, v);
    }
}

/// Adding the hook's constants keeps every constant the pool held at its
/// index, and the answered index holds a method reference to the hook: a
/// class constant naming the hook's class and a name-and-type constant with
/// the hook's name and descriptor.
pub proof fn lemma_url_constants_name_the_hook(pool: Seq<PoolEntryView>, h: UrlHookView)
    requires
        pool.len() <= 0x10000,
        url_constants(pool, h) is Some,
    ensures
        ({
            let (p, mi) = url_constants(pool, h)->Some_0;
            &&& pool.len() <= p.len() <= 0x10000
            &&& forall|i: int| 0 <= i < pool.len() ==> #[trigger] p[i] == pool[i]
            &&& 0 <= mi < p.len()
            &&& hook_reference(p, mi, h)
        }),
{
    let (p1, a) = add_checked(pool, PoolEntryView::Utf8(h.class))->Some_0;
    lemma_add_keeps_and_holds(pool, PoolEntryView::Utf8(h.class));
    let (p2, b) = add_checked(p1, PoolEntryView::Utf8(h.method))->Some_0;
    lemma_add_keeps_and_holds(p1, PoolEntryView::Utf8(h.method));
    let (p3, c) = add_checked(p2, PoolEntryView::Utf8(h.descriptor))->Some_0;
    lemma_add_keeps_and_holds(p2, PoolEntryView::Utf8(h.descriptor));
    lemma_last_index_bounds(pool, PoolEntryView::Utf8(h.class));
    lemma_last_index_bounds(p1, PoolEntryView::Utf8(h.method));
    lemma_last_index_bounds(p2, PoolEntryView::Utf8(h.descriptor));
    let v4 = PoolEntryView::Class(a as u16);
    let (p4, d) = add_checked(p3, v4)->Some_0;
    lemma_add_keeps_and_holds(p3, v4);
    lemma_last_index_bounds(p3, v4);
    let v5 = PoolEntryView::NameAndType(b as u16, c as u16);
    let (p5, e) = add_checked(p4, v5)->Some_0;
    lemma_add_keeps_and_holds(p4, v5);
    lemma_last_index_bounds(p4, v5);
    let v6 = PoolEntryView::Methodref(d as u16, e as u16);
    let (p6, f) = add_checked(p5, v6)->Some_0;
    lemma_add_keeps_and_holds(p5, v6);
    assert(p1.len() <= 0x10000);
    assert(p2.len() <= 0x10000);
    assert(p3.len() <= 0x10000);
    assert(p4.len() <= 0x10000);
    assert(p5.len() <= 0x10000);
    assert(p6.len() <= 0x10000);
    assert(p6[f] == v6);
    assert(p6[a] == PoolEntryView::Utf8(h.class));
    assert(p6[b] == PoolEntryView::Utf8(h.method));
    assert(p6[c] == PoolEntryView::Utf8(h.descriptor));
    assert(p6[d] == v4);
    assert(p6[e] == v5);
}

/// Every method named `openConnection` has the return of its `Code` wrapped,
/// whatever its descriptor: the rewritten class keeps the methods in order
/// with their names and descriptors, and the code of such a method is its
/// code with the last instruction replaced by `invokestatic` of the hook's
/// method reference followed by that instruction (the attribute keeps its
/// old data only where `jclass` cannot write the new code).
pub proof fn lemma_every_open_connection_is_hooked(c: ClassView, h: UrlHookView, k: int, j: int)
    requires
        c.pool.len() <= 0x10000,
        spec_extend_url_class(c, h) is Some,
        0 <= k < c.methods.len(),
        0 <= j < c.methods[k].attributes.len(),
        names_at(
            spec_extend_url_class(c, h)->Some_0.pool,
            c.methods[k].name,
            URL_OPEN_CONNECTION_METHOD_NAME@,
        ),
        names_at(
            spec_extend_url_class(c, h)->Some_0.pool,
            c.methods[k].attributes[j].0,
            CODE_ATTRIBUTE_NAME@,
        ),
        code_parsed(c.methods[k].attributes[j].1) is Some,
    ensures
        ({
            let d = spec_extend_url_class(c, h)->Some_0;
            let a = c.methods[k].attributes[j];
            let cv = code_parsed(a.1)->Some_0;
            let n = cv.codes.len() as int;
            &&& d.methods.len() == c.methods.len()
            &&& d.methods[k].name == c.methods[k].name
            &&& d.methods[k].descriptor == c.methods[k].descriptor
            &&& d.methods[k].attributes.len() == c.methods[k].attributes.len()
            &&& n > 0
            &&& exists|w: CodeView|
                {
                    &&& w.codes.len() == n + 3
                    &&& w.codes[n - 1] == INVOKESTATIC
                    &&& w.codes[n + 2] == cv.codes[n - 1]
                    &&& (forall|i: int| 0 <= i < n - 1 ==> w.codes[i] == cv.codes[i])
                    &&& hook_reference(d.pool, w.codes[n] as int * 256 + w.codes[n + 1] as int, h)
                    &&& w.max_stack == cv.max_stack
                    &&& w.max_locals == cv.max_locals
                    &&& w.exceptions == cv.exceptions
                    &&& match code_written(w) {
                        Some(b) => d.methods[k].attributes[j] == (a.0, b),
                        None => d.methods[k].attributes[j] == a,
                    }
                }
        }),
{
    let (pool, mi) = url_constants(c.pool, h)->Some_0;
    lemma_url_constants_name_the_hook(c.pool, h);
    let mi16 = mi as u16;
    let ms = methods_rewrite(pool, c.methods, mi16)->Some_0;
    let d = spec_extend_url_class(c, h)->Some_0;
    assert(d.pool == pool);
    assert(d.methods == ms);
    assert(method_rewrite(pool, c.methods[k], mi16) is Some);
    let m = c.methods[k];
    assert(ms[k] == method_rewrite(pool, m, mi16)->Some_0);
    let attrs = attrs_rewrite(pool, m.attributes, mi16)->Some_0;
    assert(ms[k].attributes == attrs);
    assert(attr_rewrite(pool, m.attributes[j], mi16) is Some);
    let a = m.attributes[j];
    assert(attrs[j] == attr_rewrite(pool, a, mi16)->Some_0);
    let cv = code_parsed(a.1)->Some_0;
    let subs = code_subs(pool, cv.attributes);
    assert(code_rewrite(pool, a.1, mi16) is Some);
    let ext = extend_attrs_from(subs, 0);
    let w = CodeView {
        codes: spec_wrap_return(cv.codes, mi16),
        attributes: Seq::new(cv.attributes.len(), |q: int| (cv.attributes[q].0, ext[q].1)),
        ..cv
    };
    let n = cv.codes.len() as int;
    assert(n > 0);
    assert(mi16 == mi);
    assert(w.codes[n] == (mi16 / 256) as u8);
    assert(w.codes[n + 1] == (mi16 % 256) as u8);
    assert((mi16 / 256) as u8 as int * 256 + (mi16 % 256) as u8 as int == mi16) by (bit_vector);
    assert(forall|i: int| 0 <= i < n - 1 ==> w.codes[i] == cv.codes[i]);
    assert(w.codes[n + 2] == cv.codes[n - 1]);
    assert(w.codes.len() == n + 3);
    assert(w.codes[n - 1] == INVOKESTATIC);
    assert(hook_reference(d.pool, w.codes[n] as int * 256 + w.codes[n + 1] as int, h));
    assert(d.methods.len() == c.methods.len());
    assert(d.methods[k].name == m.name && d.methods[k].descriptor == m.descriptor);
    assert(d.methods[k].attributes.len() == m.attributes.len());
    assert(code_rewrite(pool, a.1, mi16) == Some(code_written(w)));
    assert(match code_written(w) {
        Some(b) => d.methods[k].attributes[j] == (a.0, b),
        None => d.methods[k].attributes[j] == a,
    });
}

} // verus!
