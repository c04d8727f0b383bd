//! The Common Packet Format: a count of items, then each item as a type id,
//! a length and that many bytes. The encoder streams items into a buffer and
//! fills in each length, and the count, once they are known.

use crate::buf::{
    bytes_mut_as_slice, bytes_mut_contents, bytes_mut_len, bytes_mut_put_u16_le,
};
use crate::wire::{high_byte, le16, le16_value, low_byte};
use bytes::BytesMut;
use vstd::prelude::*;

verus! {

/// The type id of a CPF item.
#[derive(Debug, Clone, Copy, PartialEq, Eq, Structural)]
pub enum CpfItemId {
    NullAddress,
    ConnectedAddress,
    SequencedAddress,
    UnconnectedData,
    ConnectedData,
    IdentityItem,
    SockAddrInfoOtoT,
    SockAddrInfoTtoO,
}

impl CpfItemId {
    /// The 16-bit type id.
    pub open spec fn code(self) -> u16 {
        match self {
            CpfItemId::NullAddress => 0x0000,
            CpfItemId::ConnectedAddress => 0x00A1,
            CpfItemId::SequencedAddress => 0x0080,
            CpfItemId::UnconnectedData => 0x00B2,
            CpfItemId::ConnectedData => 0x00B1,
            CpfItemId::IdentityItem => 0x000C,
            CpfItemId::SockAddrInfoOtoT => 0x8000,
            CpfItemId::SockAddrInfoTtoO => 0x8001,
        }
    }

    /// The 16-bit type id.
    pub fn to_u16(self) -> (r: u16)
        ensures
            r == self.code(),
    {
        match self {
            CpfItemId::NullAddress => 0x0000,
            CpfItemId::ConnectedAddress => 0x00A1,
            CpfItemId::SequencedAddress => 0x0080,
            CpfItemId::UnconnectedData => 0x00B2,
            CpfItemId::ConnectedData => 0x00B1,
            CpfItemId::IdentityItem => 0x000C,
            CpfItemId::SockAddrInfoOtoT => 0x8000,
            CpfItemId::SockAddrInfoTtoO => 0x8001,
        }
    }
}

impl From<CpfItemId> for u16 {
    fn from(id: CpfItemId) -> (r: u16) {
        id.to_u16()
    }
}

impl vstd::std_specs::convert::FromSpecImpl<CpfItemId> for u16 {
    open spec fn obeys_from_spec() -> bool {
        true
    }

    open spec fn from_spec(id: CpfItemId) -> u16 {
        id.code()
    }
}

/// One item of a CPF block, as a mathematical value.
pub struct CpfItem {
    pub type_id: u16,
    pub data: Seq<u8>,
}

/// The length field of an item with `n` bytes of data. The field has 16
/// bits: a longer item wraps round.
pub open spec fn length_field(n: nat) -> Seq<u8> {
    le16((n % 0x10000) as u16)
}

/// One item on the wire: type id, length, data.
pub open spec fn item_bytes(item: CpfItem) -> Seq<u8> {
    le16(item.type_id) + length_field(item.data.len()) + item.data
}

/// The items on the wire, one after the other.
pub open spec fn items_bytes(items: Seq<CpfItem>) -> Seq<u8>
    decreases items.len(),
{
    if items.len() == 0 {
        Seq::<u8>::empty()
    } else {
        items_bytes(items.drop_last()) + item_bytes(items.last())
    }
}

/// A whole CPF block: the item count, then the items.
pub open spec fn cpf_bytes(items: Seq<CpfItem>) -> Seq<u8> {
    length_field(items.len()) + items_bytes(items)
}

/// Where item `i` begins in `cpf_bytes(items)`.
pub open spec fn item_offset(items: Seq<CpfItem>, i: int) -> int
    decreases i,
{
    if i <= 0 {
        2
    } else {
        item_offset(items, i - 1) + 4 + items[i - 1].data.len()
    }
}

/// What a buffer must hold while items are being written: after the count
/// field at `count_pos`, the finished items `closed`; then either nothing, or
/// an item begun whose length field lies at the position given.
pub open spec fn encoding_in_progress(
    c: Seq<u8>,
    count_pos: int,
    item_count: int,
    len_pos: Option<usize>,
    closed: Seq<CpfItem>,
) -> bool {
    let start = count_pos + 2 + items_bytes(closed).len();
    &&& 0 <= count_pos
    &&& start <= c.len()
    &&& c.subrange(count_pos + 2, start) == items_bytes(closed)
    &&& match len_pos {
        None => start == c.len() && item_count == closed.len(),
        Some(p) => p == start + 2 && p + 2 <= c.len() && item_count == closed.len() + 1,
    }
}

/// The item begun, if any: its type id stands before the length field, its
/// data is all that follows the field.
pub open spec fn item_in_progress(c: Seq<u8>, len_pos: Option<usize>) -> Option<CpfItem> {
    match len_pos {
        None => None,
        Some(p) => Some(CpfItem { type_id: le16_value(c.skip(p - 2)), data: c.skip(p + 2) }),
    }
}

/// The buffer once the item in progress, if any, has its length written
/// into its length field: all else stays.
pub open spec fn with_length_filled(c: Seq<u8>, len_pos: Option<usize>) -> Seq<u8> {
    match len_pos {
        None => c,
        Some(p) => c.take(p as int) + length_field((c.len() - p - 2) as nat) + c.skip(p + 2),
    }
}

/// Streams a CPF block into a borrowed buffer.
///
/// The fields are public because the contracts speak of the borrowed buffer;
/// `wf` says what they must hold. A caller that only appends to the buffer
/// handed out by `add_item_start` keeps `wf`.
pub struct CpfEncoder<'a> {
    pub buffer: &'a mut BytesMut,
    pub count_pos: usize,
    pub item_count: u16,
    pub current_item_len_pos: Option<usize>,
    pub closed: Ghost<Seq<CpfItem>>,
}

impl<'a> CpfEncoder<'a> {
    /// The bytes now in the buffer.
    pub open spec fn contents(&self) -> Seq<u8> {
        bytes_mut_contents(*self.buffer)
    }

    /// What the buffer held before the block was begun.
    pub open spec fn base(&self) -> Seq<u8> {
        self.contents().take(self.count_pos as int)
    }

    /// The items written so far, the one in progress last.
    pub open spec fn items(&self) -> Seq<CpfItem> {
        match item_in_progress(self.contents(), self.current_item_len_pos) {
            Some(item) => self.closed@.push(item),
            None => self.closed@,
        }
    }

    /// The encoder is well-formed when its buffer holds an encoding in
    /// progress of which its fields keep the positions and the count.
    pub open spec fn wf(&self) -> bool {
        encoding_in_progress(
            self.contents(),
            self.count_pos as int,
            self.item_count as int,
            self.current_item_len_pos,
            self.closed@,
        )
    }

    /// Begins a block at the end of `buffer`: two bytes are kept for the
    /// count.
    pub fn new(buffer: &'a mut BytesMut) -> (r: Self)
        requires
            bytes_mut_contents(*old(buffer)).len() + 2 <= isize::MAX,
        ensures
            r.wf(),
            r.contents() == bytes_mut_contents(*old(buffer)) + le16(0),
            r.base() == bytes_mut_contents(*old(buffer)),
            r.items() == Seq::<CpfItem>::empty(),
            *final(buffer) == *final(r.buffer),
    {
        let count_pos: usize = bytes_mut_len(buffer);
        let ghost before = bytes_mut_contents(*buffer);
        bytes_mut_put_u16_le(buffer, 0);
        let r = Self {
            buffer,
            count_pos,
            item_count: 0,
            current_item_len_pos: None,
            closed: Ghost(Seq::<CpfItem>::empty()),
        };
        proof {
            let c = r.contents();
            assert(c == before + le16(0));
            assert(c.take(count_pos as int) =~= before);
            assert(c.subrange(count_pos + 2, count_pos + 2) =~= Seq::<u8>::empty());
        }
        r
    }

    /// Closes the item in progress, if there is one, and begins an item of
    /// type `item_id`. The buffer comes back for the caller to append the
    /// item's data; as long as the caller only appends, the encoder stays
    /// well-formed and what was appended is the item's data. The count of
    /// items has 16 bits and must not be at its limit, and the buffer must
    /// be able to grow by the four bytes of the item's header.
    pub fn add_item_start(&mut self, item_id: CpfItemId) -> (r: &mut BytesMut)
        requires
            old(self).wf(),
            old(self).item_count < u16::MAX,
            old(self).contents().len() + 4 <= isize::MAX,
        ensures
            bytes_mut_contents(*r) == with_length_filled(
                old(self).contents(),
                old(self).current_item_len_pos,
            ) + le16(item_id.code()) + le16(0),
            *final(self).buffer == *final(r),
            *final(final(self).buffer) == *final(old(self).buffer),
            final(self).count_pos == old(self).count_pos,
            final(self).item_count == old(self).item_count + 1,
            final(self).current_item_len_pos == Some((bytes_mut_contents(*r).len() - 2) as usize),
            final(self).closed@ == old(self).items(),
            bytes_mut_contents(*r).is_prefix_of(bytes_mut_contents(*final(r))) ==> {
                &&& final(self).wf()
                &&& final(self).base() == old(self).base()
                &&& final(self).items() == old(self).items().push(
                    CpfItem {
                        type_id: item_id.code(),
                        data: bytes_mut_contents(*final(r)).skip(
                            bytes_mut_contents(*r).len() as int,
                        ),
                    },
                )
            },
    {
        self.add_item_end();
        let ghost c0 = self.contents();
        bytes_mut_put_u16_le(self.buffer, item_id.to_u16());
        let len_pos: usize = bytes_mut_len(self.buffer);
        self.current_item_len_pos = Some(len_pos);
        bytes_mut_put_u16_le(self.buffer, 0);
        self.item_count += 1;
        proof {
            let c1 = self.contents();
            let count_pos = self.count_pos as int;
            let item_count = self.item_count as int;
            let closed = self.closed@;
            assert(c1 =~= c0 + le16(item_id.code()) + le16(0));
            assert(c1.take(count_pos) =~= c0.take(count_pos));
            assert forall|c2: Seq<u8>| #[trigger] c1.is_prefix_of(c2) implies {
                &&& encoding_in_progress(c2, count_pos, item_count, Some(len_pos), closed)
                &&& c2.take(count_pos) == c0.take(count_pos)
                &&& item_in_progress(c2, Some(len_pos)) == Some(
                    CpfItem { type_id: item_id.code(), data: c2.skip(c1.len() as int) },
                )
            } by {
                lemma_begun_item_survives_append(c0, c1, c2, count_pos, closed, item_id.code());
            }
        }
        self.buffer
    }

    /// Closes the item in progress, if there is one, then writes the count
    /// of items into the field kept for it. The buffer then holds what it
    /// held before the block, followed by the block.
    pub fn finish(self)
        requires
            self.wf(),
        ensures
            bytes_mut_contents(*final(self.buffer)) == self.base() + cpf_bytes(self.items()),
    {
        let mut this = self;
        let ghost base = this.base();
        let ghost items = this.items();
        this.add_item_end();
        let ghost c0 = this.contents();
        let count_pos: usize = this.count_pos;
        let lo: u8 = low_byte(this.item_count);
        let hi: u8 = high_byte(this.item_count);
        let s = bytes_mut_as_slice(this.buffer);
        s[count_pos] = lo;
        s[count_pos + 1] = hi;
        proof {
            let c1 = this.contents();
            assert(c1 == c0.update(count_pos as int, lo).update(count_pos + 1, hi));
            assert(c0.subrange(count_pos + 2, c0.len() as int) == items_bytes(items));
            assert(c1 =~= base + cpf_bytes(items));
        }
    }

    /// Writes the length of the item in progress, if there is one, into its
    /// length field; the item is then finished.
    fn add_item_end(&mut self)
        requires
            old(self).wf(),
        ensures
            final(self).wf(),
            final(self).current_item_len_pos is None,
            final(self).closed@ == old(self).items(),
            final(self).items() == old(self).items(),
            final(self).count_pos == old(self).count_pos,
            final(self).item_count == old(self).item_count,
            final(self).base() == old(self).base(),
            final(self).contents() == with_length_filled(
                old(self).contents(),
                old(self).current_item_len_pos,
            ),
            *final(final(self).buffer) == *final(old(self).buffer),
    {
        if let Some(len_pos) = self.current_item_len_pos {
            let ghost c0 = self.contents();
            let ghost item = item_in_progress(c0, Some(len_pos))->0;
            let end: usize = bytes_mut_len(self.buffer);
            let data_start: usize = len_pos + 2;
            let data_len: u16 = ((end - data_start) % 0x10000) as u16;
            let lo: u8 = low_byte(data_len);
            let hi: u8 = high_byte(data_len);
            let s = bytes_mut_as_slice(self.buffer);
            s[len_pos] = lo;
            s[len_pos + 1] = hi;
            self.current_item_len_pos = None;
            proof {
                let c1 = self.contents();
                let closed0 = self.closed@;
                let closed1 = closed0.push(item);
                assert(c1 == c0.update(len_pos as int, lo).update(len_pos + 1, hi));
                let start = self.count_pos + 2 + items_bytes(closed0).len();
                assert(closed1.drop_last() =~= closed0);
                assert(closed1.last() == item);
                assert(items_bytes(closed1) == items_bytes(closed0) + item_bytes(item));
                assert(c0.skip(len_pos - 2).len() >= 2);
                assert(le16(item.type_id) =~= c0.subrange(len_pos - 2, len_pos as int)) by {
                    crate::wire::lemma_le16_of_value(c0.subrange(len_pos - 2, len_pos as int));
                    assert(c0.subrange(len_pos - 2, len_pos as int)[0] == c0.skip(len_pos - 2)[0]);
                    assert(c0.subrange(len_pos - 2, len_pos as int)[1] == c0.skip(len_pos - 2)[1]);
                }
                assert(c1.subrange(self.count_pos + 2, c1.len() as int) =~= items_bytes(closed0)
                    + item_bytes(item)) by {
                    assert(c0.subrange(self.count_pos + 2, start) == items_bytes(closed0));
                    assert forall|j: int| 0 <= j < items_bytes(closed0).len() implies c1[self.count_pos
                        + 2 + j] == items_bytes(closed0)[j] by {
                        assert(c0.subrange(self.count_pos + 2, start)[j] == c0[self.count_pos + 2
                            + j]);
                    }
                }
                assert(c1.take(self.count_pos as int) =~= c0.take(self.count_pos as int));
                assert(c1 =~= with_length_filled(c0, Some(len_pos)));
            }
            self.closed = Ghost(self.closed@.push(item));
        }
    }
}

/// An item begun at the end of `c0` stays the item in progress however much
/// is appended behind its header, and what is appended is its data.
pub proof fn lemma_begun_item_survives_append(
    c0: Seq<u8>,
    c1: Seq<u8>,
    c2: Seq<u8>,
    count_pos: int,
    closed: Seq<CpfItem>,
    type_id: u16,
)
    requires
        encoding_in_progress(c0, count_pos, closed.len() as int, None, closed),
        c1 == c0 + le16(type_id) + le16(0),
        c1.is_prefix_of(c2),
        c0.len() + 2 <= usize::MAX,
    ensures
        encoding_in_progress(
            c2,
            count_pos,
            closed.len() as int + 1,
            Some((c0.len() + 2) as usize),
            closed,
        ),
        c2.take(count_pos) == c0.take(count_pos),
        item_in_progress(c2, Some((c0.len() + 2) as usize)) == Some(
            CpfItem { type_id, data: c2.skip(c1.len() as int) },
        ),
{
    let p = c0.len() + 2;
    let start = count_pos + 2 + items_bytes(closed).len();
    assert(c1 =~= c2.subrange(0, c1.len() as int));
    assert forall|j: int| 0 <= j < c1.len() implies c2[j] == c1[j] by {
        assert(c2.subrange(0, c1.len() as int)[j] == c2[j]);
    }
    assert(c2.subrange(count_pos + 2, start) =~= c0.subrange(count_pos + 2, start));
    assert(c2.take(count_pos) =~= c0.take(count_pos));
    let t = c2.skip(p - 2);
    assert(t[0] == le16(type_id)[0]) by {
        assert(c1[c0.len() as int] == le16(type_id)[0]);
    }
    assert(t[1] == le16(type_id)[1]) by {
        assert(c1[c0.len() as int + 1] == le16(type_id)[1]);
    }
    crate::wire::lemma_le16_roundtrip(type_id, t.skip(2));
    assert(t =~= le16(type_id) + t.skip(2));
}

/// The items before the last lie in a block where they lie without it.
pub proof fn lemma_item_offset_prefix(items: Seq<CpfItem>, i: int)
    requires
        0 <= i < items.len(),
    ensures
        item_offset(items.drop_last(), i) == item_offset(items, i),
    decreases i,
{
    if i > 0 {
        lemma_item_offset_prefix(items, i - 1);
    }
}

/// A block is as long as the offset behind its last item says.
pub proof fn lemma_cpf_len(items: Seq<CpfItem>)
    ensures
        cpf_bytes(items).len() == item_offset(items, items.len() as int),
    decreases items.len(),
{
    if items.len() > 0 {
        lemma_cpf_len(items.drop_last());
        lemma_item_offset_prefix(items, items.len() - 1);
    }
}

/// `part` stands in `whole` at the offset `at`.
pub open spec fn stands_at(whole: Seq<u8>, at: int, part: Seq<u8>) -> bool {
    &&& 0 <= at
    &&& at + part.len() <= whole.len()
    &&& whole.subrange(at, at + part.len()) == part
}

/// In the items of a block, every item stands at its offset, less the two
/// bytes of the count.
pub proof fn lemma_item_stands_in_items(items: Seq<CpfItem>, i: int)
    requires
        0 <= i < items.len(),
    ensures
        2 <= item_offset(items, i),
        stands_at(items_bytes(items), item_offset(items, i) - 2, item_bytes(items[i])),
    decreases items.len(),
{
    let b = items_bytes(items);
    let n = items.len() as int;
    let init = items.drop_last();
    let b0 = items_bytes(init);
    let e = item_bytes(items.last());
    lemma_cpf_len(init);
    lemma_item_offset_prefix(items, n - 1);
    assert(b == b0 + e);
    if i == n - 1 {
        assert(b.subrange(b0.len() as int, b0.len() as int + e.len()) =~= e);
    } else {
        lemma_item_stands_in_items(init, i);
        lemma_item_offset_prefix(items, i);
        let at = item_offset(items, i) - 2;
        let part = item_bytes(items[i]);
        assert(init[i] == items[i]);
        assert(b.subrange(at, at + part.len()) =~= b0.subrange(at, at + part.len()));
    }
}

/// In a block, every item stands at its offset.
pub proof fn lemma_item_stands_at_offset(items: Seq<CpfItem>, i: int)
    requires
        0 <= i < items.len(),
    ensures
        2 <= item_offset(items, i),
        stands_at(cpf_bytes(items), item_offset(items, i), item_bytes(items[i])),
{
    lemma_item_stands_in_items(items, i);
    let at = item_offset(items, i);
    let part = item_bytes(items[i]);
    assert(cpf_bytes(items).subrange(at, at + part.len()) =~= items_bytes(items).subrange(
        at - 2,
        at - 2 + part.len(),
    ));
}

/// Where an item stands, its three parts can be read back: the type id, the
/// length of its data and the data.
pub proof fn lemma_item_read_back(whole: Seq<u8>, at: int, item: CpfItem)
    requires
        stands_at(whole, at, item_bytes(item)),
        item.data.len() <= 0xFFFF,
    ensures
        at + 4 + item.data.len() <= whole.len(),
        le16_value(whole.skip(at)) == item.type_id,
        le16_value(whole.skip(at + 2)) == item.data.len(),
        whole.subrange(at + 4, at + 4 + item.data.len()) == item.data,
        item.data.len() == 0 ==> whole.subrange(at + 2, at + 4) == seq![0u8, 0u8],
{
    let e = item_bytes(item);
    let n = item.data.len() as int;
    assert(e.len() == 4 + n);
    assert forall|k: int| 0 <= k < e.len() implies whole[at + k] == e[k] by {
        assert(whole.subrange(at, at + e.len())[k] == whole[at + k]);
    }
    assert(whole.skip(at)[0] == le16(item.type_id)[0]) by {
        assert(whole[at + 0] == e[0]);
    }
    assert(whole.skip(at)[1] == le16(item.type_id)[1]) by {
        assert(whole[at + 1] == e[1]);
    }
    crate::wire::lemma_le16_roundtrip(item.type_id, Seq::<u8>::empty());
    assert(le16_value(le16(item.type_id) + Seq::<u8>::empty()) == le16_value(whole.skip(at)));
    let field = length_field(item.data.len());
    assert(whole.skip(at + 2)[0] == field[0]) by {
        assert(whole[at + 2] == e[2]);
    }
    assert(whole.skip(at + 2)[1] == field[1]) by {
        assert(whole[at + 3] == e[3]);
    }
    crate::wire::lemma_le16_roundtrip((item.data.len() % 0x10000) as u16, Seq::<u8>::empty());
    assert(le16_value(field + Seq::<u8>::empty()) == le16_value(whole.skip(at + 2)));
    assert(whole.subrange(at + 4, at + 4 + n) =~= item.data) by {
        assert forall|k: int| 0 <= k < n implies whole[at + 4 + k] == item.data[k] by {
            assert(whole[at + (4 + k)] == e[4 + k]);
        }
    }
    if n == 0 {
        assert(whole.subrange(at + 2, at + 4) =~= seq![0u8, 0u8]);
    }
}

/// The layout of a block of `N` items, for every item `i`: the block opens
/// with the count `N`; at the item's offset stand its type id, then a length
/// field that equals the exact number of its data bytes (so 0 for an item
/// without data), then the data itself. The count and the lengths are 16-bit
/// fields, so the law is stated of blocks and items that fit them.
pub proof fn lemma_cpf_layout(items: Seq<CpfItem>, i: int)
    requires
        items.len() <= 0xFFFF,
        forall|j: int| 0 <= j < items.len() ==> (#[trigger] items[j]).data.len() <= 0xFFFF,
        0 <= i < items.len(),
    ensures
        le16_value(cpf_bytes(items)) == items.len(),
        ({
            let b = cpf_bytes(items);
            let at = item_offset(items, i);
            &&& 2 <= at
            &&& at + 4 + items[i].data.len() <= b.len()
            &&& le16_value(b.skip(at)) == items[i].type_id
            &&& le16_value(b.skip(at + 2)) == items[i].data.len()
            &&& b.subrange(at + 4, at + 4 + items[i].data.len()) == items[i].data
            &&& items[i].data.len() == 0 ==> b.subrange(at + 2, at + 4) == seq![0u8, 0u8]
        }),
{
    crate::wire::lemma_le16_roundtrip((items.len() % 0x10000) as u16, items_bytes(items));
    lemma_item_stands_at_offset(items, i);
    lemma_item_read_back(cpf_bytes(items), item_offset(items, i), items[i]);
}

} // verus!
