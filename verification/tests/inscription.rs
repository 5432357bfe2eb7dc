use ord_rest::chain::{Chain, ServerConfig};
use ord_rest::content::decode_content;
use ord_rest::ids::{unbound_outpoint, InscriptionId, OutPoint, SatPoint, Txid};
use ord_rest::index::{Index, Inscription, InscriptionEntry, Transaction, TxOut};
use ord_rest::rest::{get_inscription, Rest, ServerError};

fn txid(fill: u8) -> Txid {
    Txid { bytes: [fill; 32] }
}

fn id(fill: u8) -> InscriptionId {
    InscriptionId { txid: txid(fill), index: 0 }
}

fn config() -> ServerConfig {
    ServerConfig { chain: Chain::Mainnet }
}

fn p2wpkh_script() -> Vec<u8> {
    let mut script = vec![0x00, 0x14];
    script.extend_from_slice(&[
        0x75, 0x1e, 0x76, 0xe8, 0x19, 0x91, 0x96, 0xd4, 0x54, 0x94, 0x1c, 0x45, 0xd1, 0xb3, 0xa3,
        0x23, 0xf1, 0x43, 0x3b, 0xd6,
    ]);
    script
}

fn entry(sat: Option<u64>) -> InscriptionEntry {
    InscriptionEntry { fee: 100, height: 5, number: 7, sat, timestamp: 1000 }
}

/// An index that holds inscription `id(fill)` with body `body`, sitting on
/// output 0 of transaction `txid(0xaa)`, which pays 546 to `script`.
fn index_with(fill: u8, body: Option<&[u8]>, sat: Option<u64>, script: Vec<u8>) -> Index {
    let mut index = Index::new(false);
    add_inscription(&mut index, fill, body, sat);
    index.transactions.insert(
        txid(0xaa),
        Transaction { output: vec![TxOut { value: 546, script_pubkey: script }] },
    );
    index
}

fn add_inscription(index: &mut Index, fill: u8, body: Option<&[u8]>, sat: Option<u64>) {
    index.entries.insert(id(fill), entry(sat));
    index.inscriptions.insert(
        id(fill),
        Inscription::new(body.map(|b| b.to_vec()), Some("text/plain".to_string())).unwrap(),
    );
    index.satpoints.insert(
        id(fill),
        SatPoint { outpoint: OutPoint { txid: txid(0xaa), vout: 0 }, offset: 3 },
    );
}

fn label(fill: u8) -> String {
    format!("inscription {}i0", format!("{:02x}", fill).repeat(32))
}

#[test]
fn inscription_example_fields() {
    let index = index_with(1, Some(b"hi"), Some(42), p2wpkh_script());
    let view = Rest::inscription(&config(), &index, id(1)).unwrap();
    assert_eq!(view.content, "aGk=");
    assert_eq!(view.content_length, 2);
    assert_eq!(view.content_type, "text/plain");
    assert_eq!(view.genesis_fee, 100);
    assert_eq!(view.genesis_height, 5);
    assert_eq!(view.timestamp, 1000);
    assert_eq!(view.number, 7);
    assert_eq!(view.sat, "42");
    assert_eq!(view.satpoint, SatPoint { outpoint: OutPoint { txid: txid(0xaa), vout: 0 }, offset: 3 });
    assert_eq!(view.output, TxOut { value: 546, script_pubkey: p2wpkh_script() });
    assert_eq!(view.address, "bc1qw508d6qejxtdg4y5r3zarvary0c5xw7kv8f3t4");
}

#[test]
fn inscription_view_carries_the_id_asked_for() {
    let index = index_with(9, Some(b"x"), None, vec![]);
    let view = Rest::inscription(&config(), &index, id(9)).unwrap();
    assert_eq!(view.inscription_id, id(9));
}

#[test]
fn unknown_inscription_is_not_found() {
    let index = index_with(1, Some(b"hi"), None, vec![]);
    let err = Rest::inscription(&config(), &index, id(2)).unwrap_err();
    assert_eq!(err, ServerError::NotFound(label(2)));
    assert_eq!(err.message(), &label(2));
}

#[test]
fn inscription_without_content_is_not_found() {
    let mut index = Index::new(false);
    index.entries.insert(id(1), entry(None));
    let err = get_inscription(&config(), &index, id(1)).unwrap_err();
    assert_eq!(err, ServerError::NotFound(label(1)));
}

#[test]
fn inscription_without_position_is_not_found() {
    let mut index = Index::new(false);
    index.entries.insert(id(1), entry(None));
    index.inscriptions.insert(id(1), Inscription::new(None, None).unwrap());
    let err = get_inscription(&config(), &index, id(1)).unwrap_err();
    assert_eq!(err, ServerError::NotFound(label(1)));
}

#[test]
fn inscription_without_transaction_is_not_found() {
    let mut index = Index::new(false);
    add_inscription(&mut index, 1, Some(b"hi"), None);
    let err = get_inscription(&config(), &index, id(1)).unwrap_err();
    assert_eq!(err, ServerError::NotFound(format!("{} current transaction", label(1))));
}

#[test]
fn inscription_without_output_is_not_found() {
    let mut index = Index::new(false);
    add_inscription(&mut index, 1, Some(b"hi"), None);
    index.transactions.insert(txid(0xaa), Transaction { output: vec![] });
    let err = get_inscription(&config(), &index, id(1)).unwrap_err();
    assert_eq!(err, ServerError::NotFound(format!("{} current transaction output", label(1))));
}

#[test]
fn unbound_inscription_has_the_empty_output() {
    let mut index = Index::new(false);
    add_inscription(&mut index, 1, Some(b"hi"), None);
    index.satpoints.insert(id(1), SatPoint { outpoint: unbound_outpoint(), offset: 0 });
    let view = get_inscription(&config(), &index, id(1)).unwrap();
    assert_eq!(view.output, TxOut { value: 0, script_pubkey: vec![] });
    assert_eq!(view.address, "");
    assert_eq!(view.satpoint.outpoint, unbound_outpoint());
}

#[test]
fn later_record_replaces_earlier() {
    let mut index = index_with(1, Some(b"hi"), Some(1), vec![]);
    index.entries.insert(id(1), InscriptionEntry { fee: 9, height: 8, number: -3, sat: None, timestamp: 6 });
    let view = get_inscription(&config(), &index, id(1)).unwrap();
    assert_eq!(view.genesis_fee, 9);
    assert_eq!(view.genesis_height, 8);
    assert_eq!(view.number, -3);
    assert_eq!(view.timestamp, 6);
    assert_eq!(view.sat, "-1");
}

#[test]
fn address_is_empty_where_the_script_has_none() {
    let index = index_with(1, Some(b"hi"), None, vec![0x6a]);
    let view = get_inscription(&config(), &index, id(1)).unwrap();
    assert_eq!(view.address, "");
    let index = index_with(1, Some(b"hi"), None, p2wpkh_script());
    let view = get_inscription(&config(), &index, id(1)).unwrap();
    assert!(!view.address.is_empty());
}

#[test]
fn address_follows_the_chain() {
    let index = index_with(1, Some(b"hi"), None, p2wpkh_script());
    let testnet = ServerConfig { chain: Chain::Testnet };
    let view = get_inscription(&testnet, &index, id(1)).unwrap();
    assert_eq!(view.address, "tb1qw508d6qejxtdg4y5r3zarvary0c5xw7kxpjzsx");
    let signet = ServerConfig { chain: Chain::Signet };
    let view = get_inscription(&signet, &index, id(1)).unwrap();
    assert_eq!(view.address, "tb1qw508d6qejxtdg4y5r3zarvary0c5xw7kxpjzsx");
    let regtest = ServerConfig { chain: Chain::Regtest };
    let view = get_inscription(&regtest, &index, id(1)).unwrap();
    assert_eq!(view.address, "bcrt1qw508d6qejxtdg4y5r3zarvary0c5xw7kygt080");
}

#[test]
fn p2pkh_address() {
    // OP_DUP OP_HASH160 <20 zero bytes> OP_EQUALVERIFY OP_CHECKSIG
    let mut script = vec![0x76, 0xa9, 0x14];
    script.extend_from_slice(&[0u8; 20]);
    script.extend_from_slice(&[0x88, 0xac]);
    let index = index_with(1, None, None, script);
    let view = get_inscription(&config(), &index, id(1)).unwrap();
    assert_eq!(view.address, "1111111111111111111114oLvT2");
}

#[test]
fn content_is_empty_without_a_body() {
    let index = index_with(1, None, None, vec![]);
    let view = get_inscription(&config(), &index, id(1)).unwrap();
    assert_eq!(view.content, "");
    assert_eq!(view.content_length, 0);
    let index = index_with(1, Some(b""), None, vec![]);
    let view = get_inscription(&config(), &index, id(1)).unwrap();
    assert_eq!(view.content, "");
    assert_eq!(view.content_length, 0);
}

#[test]
fn content_type_is_empty_where_none_is_declared() {
    let mut index = index_with(1, None, None, vec![]);
    index.inscriptions.insert(id(1), Inscription::new(Some(vec![1, 2, 3]), None).unwrap());
    let view = get_inscription(&config(), &index, id(1)).unwrap();
    assert_eq!(view.content_type, "");
    assert_eq!(view.content_length, 3);
    assert_eq!(view.content, "AQID");
}

#[test]
fn content_decodes_back_to_the_body() {
    let bodies: Vec<Vec<u8>> = vec![
        vec![0],
        vec![0xff, 0xfe],
        b"hello world~".to_vec(),
        (0u8..=255).collect(),
    ];
    for body in bodies {
        let index = index_with(1, Some(&body), None, vec![]);
        let view = get_inscription(&config(), &index, id(1)).unwrap();
        assert!(!view.content.is_empty());
        assert_eq!(view.content.len(), 4 * ((body.len() + 2) / 3));
        assert_eq!(decode_content(&view.content), Some(body.clone()));
        let outside = base64::Engine::decode(
            &base64::engine::general_purpose::STANDARD,
            &view.content,
        )
        .unwrap();
        assert_eq!(outside, body);
    }
}

#[test]
fn decode_content_rejects_what_is_no_base64() {
    assert_eq!(decode_content(&"a".to_string()), None);
    assert_eq!(decode_content(&"****".to_string()), None);
    assert_eq!(decode_content(&"".to_string()), Some(vec![]));
    assert_eq!(decode_content(&"aGk=".to_string()), Some(b"hi".to_vec()));
}

#[test]
fn sat_field_is_minus_one_without_a_satoshi() {
    let index = index_with(1, None, None, vec![]);
    assert_eq!(get_inscription(&config(), &index, id(1)).unwrap().sat, "-1");
    let index = index_with(1, None, Some(0), vec![]);
    assert_eq!(get_inscription(&config(), &index, id(1)).unwrap().sat, "0");
    let index = index_with(1, None, Some(2099999997689999), vec![]);
    assert_eq!(get_inscription(&config(), &index, id(1)).unwrap().sat, "2099999997689999");
    let index = index_with(1, None, Some(u64::MAX), vec![]);
    assert_eq!(get_inscription(&config(), &index, id(1)).unwrap().sat, "18446744073709551615");
}

#[test]
fn inscriptions_keep_the_order_asked_for() {
    let mut index = index_with(1, Some(b"a"), None, vec![]);
    add_inscription(&mut index, 2, Some(b"b"), None);
    add_inscription(&mut index, 3, Some(b"c"), None);
    let views = Rest::inscriptions(&config(), &index, vec![id(3), id(1), id(2), id(1)]).unwrap();
    assert_eq!(views.len(), 4);
    assert_eq!(views[0], get_inscription(&config(), &index, id(3)).unwrap());
    assert_eq!(views[1], get_inscription(&config(), &index, id(1)).unwrap());
    assert_eq!(views[2], get_inscription(&config(), &index, id(2)).unwrap());
    assert_eq!(views[3], views[1]);
    assert_eq!(views[0].content, "Yw==");
}

#[test]
fn inscriptions_of_nothing_is_nothing() {
    let index = Index::new(false);
    assert_eq!(Rest::inscriptions(&config(), &index, vec![]), Ok(vec![]));
}

#[test]
fn inscriptions_fail_at_the_first_unknown() {
    let mut index = index_with(1, Some(b"a"), None, vec![]);
    let asked = vec![id(1), id(7), id(3), id(8)];
    let err = Rest::inscriptions(&config(), &index, asked.clone()).unwrap_err();
    assert_eq!(err, ServerError::NotFound(label(7)));
    add_inscription(&mut index, 3, Some(b"c"), None);
    let err = Rest::inscriptions(&config(), &index, asked).unwrap_err();
    assert_eq!(err, ServerError::NotFound(label(7)));
}

#[test]
fn inscription_rejects_a_body_too_long_to_encode() {
    assert!(Inscription::new(Some(vec![0; 16]), None).is_some());
    let inscription = Inscription::new(Some(b"hi".to_vec()), Some("text/plain".to_string())).unwrap();
    assert_eq!(inscription.body(), Some(&b"hi".to_vec()));
    assert_eq!(inscription.content_type(), Some(&"text/plain".to_string()));
    assert_eq!(inscription.content_length(), Some(2));
    let empty = Inscription::new(None, None).unwrap();
    assert_eq!(empty.body(), None);
    assert_eq!(empty.content_type(), None);
    assert_eq!(empty.content_length(), None);
}
