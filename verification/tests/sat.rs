use ord_rest::chain::{Chain, ServerConfig};
use ord_rest::ids::{OutPoint, SatPoint, Txid};
use ord_rest::index::Index;
use ord_rest::rest::{Rest, SatView, ServerError};
use ord_rest::sat::{Rarity, Sat};

fn config() -> ServerConfig {
    ServerConfig { chain: Chain::Mainnet }
}

fn sat() -> Sat {
    Sat {
        n: 5000000000,
        decimal: "1.0".to_string(),
        degree: "0°1′1″0‴".to_string(),
        percentile: "0.00023809523835714296%".to_string(),
        name: "nvtcsezkbth".to_string(),
        cycle: 0,
        epoch: 0,
        period: 0,
        height: 1,
        third: 0,
        rarity: Rarity::Uncommon,
    }
}

fn expected(satpoint: SatPoint) -> SatView {
    SatView {
        sat: "5000000000".to_string(),
        decimal: "1.0".to_string(),
        degree: "0°1′1″0‴".to_string(),
        percentile: "0.00023809523835714296%".to_string(),
        name: "nvtcsezkbth".to_string(),
        cycle: 0,
        epoch: "0".to_string(),
        period: 0,
        block: "1".to_string(),
        offset: 0,
        rarity: Rarity::Uncommon,
        satpoint,
        blocktime: 1231469665,
    }
}

#[test]
fn sat_without_a_position_has_the_null_satpoint() {
    let mut index = Index::new(true);
    index.block_times.insert(1, 1231469665);
    let view = Rest::sat(&config(), &index, &sat()).unwrap();
    assert_eq!(view, expected(SatPoint::null()));
    assert_eq!(
        view.satpoint,
        SatPoint { outpoint: OutPoint { txid: Txid { bytes: [0; 32] }, vout: u32::MAX }, offset: 0 }
    );
}

#[test]
fn sat_with_a_position() {
    let mut index = Index::new(true);
    index.block_times.insert(1, 1231469665);
    let at = SatPoint { outpoint: OutPoint { txid: Txid { bytes: [3; 32] }, vout: 2 }, offset: 11 };
    index.rare_sats.insert(5000000000, at);
    assert_eq!(Rest::sat(&config(), &index, &sat()), Ok(expected(at)));
}

#[test]
fn sat_position_is_not_read_where_ranges_are_not_tracked() {
    let mut index = Index::new(false);
    index.block_times.insert(1, 1231469665);
    let at = SatPoint { outpoint: OutPoint { txid: Txid { bytes: [3; 32] }, vout: 2 }, offset: 11 };
    index.rare_sats.insert(5000000000, at);
    assert_eq!(Rest::sat(&config(), &index, &sat()), Ok(expected(SatPoint::null())));
}

#[test]
fn sat_of_an_unknown_block_is_not_found() {
    let mut index = Index::new(true);
    index.block_times.insert(2, 1231469744);
    let err = Rest::sat(&config(), &index, &sat()).unwrap_err();
    assert_eq!(err, ServerError::NotFound("block 1".to_string()));
}

#[test]
fn sat_numbers_travel_as_text() {
    let mut index = Index::new(true);
    index.block_times.insert(6929999, -5);
    let mut last = sat();
    last.n = 2099999997689999;
    last.epoch = 32;
    last.height = 6929999;
    last.cycle = 5;
    last.period = 3437;
    last.third = 0;
    last.rarity = Rarity::Common;
    let view = Rest::sat(&config(), &index, &last).unwrap();
    assert_eq!(view.sat, "2099999997689999");
    assert_eq!(view.epoch, "32");
    assert_eq!(view.block, "6929999");
    assert_eq!(view.cycle, 5);
    assert_eq!(view.period, 3437);
    assert_eq!(view.rarity, Rarity::Common);
    assert_eq!(view.blocktime, -5);
}
