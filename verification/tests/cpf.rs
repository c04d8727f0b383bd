use bytes::{BufMut, BytesMut};
use rs_eip_adapter::encap::cpf::{CpfEncoder, CpfItemId};

#[test]
fn cpf_single_item_length_and_count() {
    let mut buf = BytesMut::new();
    let mut cpf_encoder = CpfEncoder::new(&mut buf);
    {
        let item = cpf_encoder.add_item_start(CpfItemId::IdentityItem);
        item.put_u8(0xAA);
        item.put_u8(0xBB);
    }
    cpf_encoder.finish();

    let items_count = u16::from_le_bytes([buf[0], buf[1]]);
    assert_eq!(items_count, 1);

    let item_id = u16::from_le_bytes([buf[2], buf[3]]);
    assert_eq!(item_id, u16::from(CpfItemId::IdentityItem));

    let items_len = u16::from_le_bytes([buf[4], buf[5]]);
    assert_eq!(items_len, 2);

    assert_eq!(buf[6], 0xAA);
    assert_eq!(buf[7], 0xBB);
}

#[test]
fn cpf_multiple_items_and_lengths() {
    let mut buf = BytesMut::new();
    let mut cpf_encoder = CpfEncoder::new(&mut buf);
    {
        let first_item = cpf_encoder.add_item_start(CpfItemId::IdentityItem);
        first_item.put_slice(&[1, 2, 3]);
    }
    {
        let second_item = cpf_encoder.add_item_start(CpfItemId::SockAddrInfoOtoT);
        second_item.put_u8(0xFF);
    }
    cpf_encoder.finish();

    let items_count = u16::from_le_bytes([buf[0], buf[1]]);
    assert_eq!(items_count, 2);

    let first_item_id = u16::from_le_bytes([buf[2], buf[3]]);
    assert_eq!(first_item_id, u16::from(CpfItemId::IdentityItem));
    let first_item_len = u16::from_le_bytes([buf[4], buf[5]]);
    assert_eq!(first_item_len, 3);

    let second_item_id_offset = 6 + (first_item_len as usize);
    let second_item_id =
        u16::from_le_bytes([buf[second_item_id_offset], buf[second_item_id_offset + 1]]);
    assert_eq!(second_item_id, u16::from(CpfItemId::SockAddrInfoOtoT));
    let second_item_len = u16::from_le_bytes([
        buf[second_item_id_offset + 2],
        buf[second_item_id_offset + 3],
    ]);
    assert_eq!(second_item_len, 1);
    let second_item_data = buf[second_item_id_offset + 4];
    assert_eq!(second_item_data, 0xFF);
}

#[test]
fn cpf_zero_length_item() {
    let mut buf = BytesMut::new();
    let mut cpf_encoder = CpfEncoder::new(&mut buf);
    {
        let _ = cpf_encoder.add_item_start(CpfItemId::IdentityItem);
    }
    cpf_encoder.finish();

    let count = u16::from_le_bytes([buf[0], buf[1]]);
    assert_eq!(count, 1);
    let len = u16::from_le_bytes([buf[4], buf[5]]);
    assert_eq!(len, 0);
}

#[test]
fn cpf_add_item_end_updates_previous_length() {
    let mut buf = BytesMut::new();
    let mut cpf_encoder = CpfEncoder::new(&mut buf);
    {
        let first_item = cpf_encoder.add_item_start(CpfItemId::IdentityItem);
        first_item.put_slice(&[10, 11]);
        let second_item = cpf_encoder.add_item_start(CpfItemId::ConnectedAddress);
        second_item.put_u8(0x01);
    }
    cpf_encoder.finish();

    let first_item_len = u16::from_le_bytes([buf[4], buf[5]]);
    assert_eq!(first_item_len, 2);

    let second_item_len_offset = 6 + 2 + 2;
    let second_item_len = u16::from_le_bytes([
        buf[second_item_len_offset],
        buf[second_item_len_offset + 1],
    ]);
    assert_eq!(second_item_len, 1);
}

#[test]
fn cpf_block_is_exact_and_follows_what_the_buffer_held() {
    let mut buf = BytesMut::new();
    buf.put_slice(&[0xEE, 0xEF]);
    let mut cpf_encoder = CpfEncoder::new(&mut buf);
    cpf_encoder
        .add_item_start(CpfItemId::NullAddress);
    cpf_encoder
        .add_item_start(CpfItemId::UnconnectedData)
        .put_slice(&[9, 8, 7, 6]);
    cpf_encoder
        .add_item_start(CpfItemId::SockAddrInfoTtoO)
        .put_u8(5);
    cpf_encoder.finish();
    assert_eq!(
        &buf[..],
        &[
            0xEE, 0xEF, 3, 0, 0x00, 0x00, 0, 0, 0xB2, 0x00, 4, 0, 9, 8, 7, 6, 0x01, 0x80, 1, 0, 5
        ]
    );
}

#[test]
fn cpf_block_without_items_is_the_count_zero() {
    let mut buf = BytesMut::new();
    let cpf_encoder = CpfEncoder::new(&mut buf);
    cpf_encoder.finish();
    assert_eq!(&buf[..], &[0, 0]);
}

#[test]
fn cpf_long_item_has_a_two_byte_length() {
    let mut buf = BytesMut::new();
    let mut cpf_encoder = CpfEncoder::new(&mut buf);
    cpf_encoder
        .add_item_start(CpfItemId::ConnectedData)
        .put_bytes(0x55, 0x0203);
    cpf_encoder.finish();
    assert_eq!(&buf[..6], &[1, 0, 0xB1, 0x00, 0x03, 0x02]);
    assert_eq!(buf.len(), 6 + 0x0203);
}

#[test]
fn cpf_item_type_ids() {
    assert_eq!(CpfItemId::NullAddress.to_u16(), 0x0000);
    assert_eq!(CpfItemId::ConnectedAddress.to_u16(), 0x00A1);
    assert_eq!(CpfItemId::SequencedAddress.to_u16(), 0x0080);
    assert_eq!(CpfItemId::UnconnectedData.to_u16(), 0x00B2);
    assert_eq!(CpfItemId::ConnectedData.to_u16(), 0x00B1);
    assert_eq!(CpfItemId::IdentityItem.to_u16(), 0x000C);
    assert_eq!(CpfItemId::SockAddrInfoOtoT.to_u16(), 0x8000);
    assert_eq!(u16::from(CpfItemId::SockAddrInfoTtoO), 0x8001);
}
