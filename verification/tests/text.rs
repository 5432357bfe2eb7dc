use ord_rest::ids::{unbound_outpoint, InscriptionId, OutPoint, SatPoint, Txid};
use ord_rest::table::{Key, Table};
use ord_rest::text::{decimal_string, digit_str, push_decimal, push_hex_backward};

fn chain_txid(bytes: [u8; 32]) -> bitcoin::Txid {
    <bitcoin::Txid as bitcoin::hashes::Hash>::from_byte_array(bytes)
}

fn counting() -> [u8; 32] {
    let mut bytes = [0u8; 32];
    for (i, b) in bytes.iter_mut().enumerate() {
        *b = (i as u8) * 8 + 1;
    }
    bytes
}

#[test]
fn decimal_strings() {
    assert_eq!(decimal_string(0), "0");
    assert_eq!(decimal_string(7), "7");
    assert_eq!(decimal_string(10), "10");
    assert_eq!(decimal_string(1234567890), "1234567890");
    assert_eq!(decimal_string(u64::MAX), u64::MAX.to_string());
    let mut out = "n=".to_string();
    push_decimal(&mut out, 405);
    assert_eq!(out, "n=405");
}

#[test]
fn digits() {
    let all: String = (0u8..16).map(digit_str).collect();
    assert_eq!(all, "0123456789abcdef");
}

#[test]
fn hex_runs_backward() {
    let mut out = String::new();
    push_hex_backward(&mut out, &[0x01, 0xab, 0xf0]);
    assert_eq!(out, "f0ab01");
    push_hex_backward(&mut out, &[]);
    assert_eq!(out, "f0ab01");
}

#[test]
fn txid_text_is_that_of_the_chain_library() {
    let bytes = counting();
    let ours = Txid { bytes };
    let theirs = chain_txid(bytes);
    let mut text = String::new();
    ours.push_text(&mut text);
    assert_eq!(text, theirs.to_string());
    assert_eq!(text.len(), 64);
    assert!(text.starts_with("f9f1"));
    assert!(text.ends_with("0901"));
}

#[test]
fn outpoint_text_is_that_of_the_chain_library() {
    let bytes = counting();
    let ours = OutPoint { txid: Txid { bytes }, vout: 4294967295 };
    let theirs = bitcoin::OutPoint { txid: chain_txid(bytes), vout: 4294967295 };
    assert_eq!(ours.text(), theirs.to_string());
    assert_eq!(OutPoint::null().text(), bitcoin::OutPoint::null().to_string());
}

#[test]
fn satpoint_and_inscription_id_text() {
    let zeros = "0".repeat(64);
    let at = SatPoint { outpoint: OutPoint { txid: Txid::all_zeros(), vout: 3 }, offset: 77 };
    assert_eq!(at.text(), format!("{zeros}:3:77"));
    let id = InscriptionId { txid: Txid { bytes: [0x1f; 32] }, index: 12 };
    assert_eq!(id.text(), format!("{}i12", "1f".repeat(32)));
}

#[test]
fn sentinels() {
    assert!(OutPoint::null().is_null());
    assert!(!OutPoint::null().is_unbound());
    assert!(unbound_outpoint().is_unbound());
    assert!(!unbound_outpoint().is_null());
    assert_eq!(OutPoint::null(), OutPoint { txid: Txid { bytes: [0; 32] }, vout: u32::MAX });
    assert_eq!(unbound_outpoint(), OutPoint { txid: Txid { bytes: [0; 32] }, vout: 0 });
    assert!(SatPoint::null().is_null());
    assert!(!SatPoint { outpoint: OutPoint::null(), offset: 1 }.is_null());
    assert!(Txid::all_zeros().is_zero());
    let mut bytes = [0u8; 32];
    bytes[31] = 1;
    assert!(!Txid { bytes }.is_zero());
    assert!(!OutPoint { txid: Txid { bytes }, vout: 0 }.is_unbound());
}

#[test]
fn keys_are_told_apart() {
    let mut bytes = [0u8; 32];
    bytes[17] = 1;
    let a = Txid { bytes };
    assert!(a.same(&a));
    assert!(!a.same(&Txid::all_zeros()));
    assert!(OutPoint { txid: a, vout: 1 }.same(&OutPoint { txid: a, vout: 1 }));
    assert!(!OutPoint { txid: a, vout: 1 }.same(&OutPoint { txid: a, vout: 2 }));
    assert!(!InscriptionId { txid: a, index: 0 }.same(&InscriptionId { txid: Txid::all_zeros(), index: 0 }));
    assert!(5u64.same(&5));
    assert!(!5u64.same(&6));
}

#[test]
fn table_keeps_the_latest_record() {
    let mut table: Table<u64, i64> = Table::new();
    assert_eq!(table.get(&1), None);
    table.insert(1, 10);
    table.insert(2, 20);
    assert_eq!(table.get(&1), Some(&10));
    assert_eq!(table.get(&2), Some(&20));
    table.insert(1, 11);
    assert_eq!(table.get(&1), Some(&11));
    assert_eq!(table.get(&2), Some(&20));
    assert_eq!(table.get(&3), None);
}
