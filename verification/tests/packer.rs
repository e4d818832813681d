use artnet_packer::{AddressMap, ArtPacker, DMXData, PortAddress};

fn numbers(mut universes: Vec<PortAddress>) -> Vec<u16> {
    universes.sort();
    universes.iter().map(|universe| universe.value()).collect()
}

#[test]
fn art_packer_pack_simple_packet_and_suppress_and_keepalive_and_break_suppression_by_change_of_data(
) {
    //create new art packer
    let mut my_packer = ArtPacker::new();
    //create test data
    let mut test_data = AddressMap::new();
    test_data.insert(PortAddress::from(0), DMXData::try_from(vec![255]).unwrap());
    //manually assemble test packet from test data
    let mut comparison = AddressMap::new();
    comparison.insert(
        PortAddress::from(0),
        vec![
            65, 114, 116, 45, 78, 101, 116, 0, 0, 80, 0, 14, 0, 0, 0, 0, 0, 2, 255, 0,
        ],
    );
    //the clock of this test, in milliseconds
    let mut now = 10_000;
    //test for equality
    assert!(my_packer.pack(&test_data, now) == comparison);
    //does not pack again if the same
    assert!(AddressMap::new() == my_packer.pack(&test_data, now));
    //now wait for keepalive
    now += 900;
    assert!(my_packer.pack(&test_data, now) == comparison); //sequence number would break this test

    //change data
    test_data.insert(PortAddress::from(0), DMXData::try_from(vec![254]).unwrap());
    comparison.insert(
        PortAddress::from(0),
        vec![
            65, 114, 116, 45, 78, 101, 116, 0, 0, 80, 0, 14, 0, 0, 0, 0, 0, 2, 254, 0,
        ],
    );
    assert!(my_packer.pack(&test_data, now) == comparison);

    // remove suppressor
    let empty_data = AddressMap::new();
    assert!(my_packer.pack(&empty_data, now) == AddressMap::new());

    //no suppression should happen now
    assert!(my_packer.pack(&test_data, now) == comparison);
}

#[test]
fn a_new_packer_keeps_no_state() {
    let packer = ArtPacker::new();
    assert!(packer.universes().is_empty());
}

#[test]
fn the_first_tick_packs_whatever_the_time() {
    let mut data = AddressMap::new();
    data.insert(PortAddress::from(3), DMXData::try_from(vec![1, 2]).unwrap());
    for now in [0, 1, 800, u64::MAX] {
        let mut packer = ArtPacker::new();
        let out = packer.pack(&data, now);
        assert_eq!(out.len(), 1);
        assert_eq!(
            out.get(&PortAddress::from(3)),
            Some(&vec![
                65, 114, 116, 45, 78, 101, 116, 0, 0, 80, 0, 14, 0, 0, 3, 0, 0, 2, 1, 2
            ])
        );
    }
}

#[test]
fn unchanged_data_is_packed_again_only_after_more_than_800_ms() {
    let mut packer = ArtPacker::new();
    let mut data = AddressMap::new();
    data.insert(PortAddress::from(0), DMXData::try_from(vec![255]).unwrap());
    assert_eq!(packer.pack(&data, 1_000).len(), 1);
    assert!(packer.pack(&data, 1_001).is_empty());
    assert!(packer.pack(&data, 1_799).is_empty());
    assert!(packer.pack(&data, 1_800).is_empty());
    assert_eq!(packer.pack(&data, 1_801).len(), 1);
    // the interval starts again at the keepalive packet
    assert!(packer.pack(&data, 2_601).is_empty());
    assert_eq!(packer.pack(&data, 2_602).len(), 1);
}

#[test]
fn changed_data_is_packed_at_once_and_restarts_the_interval() {
    let mut packer = ArtPacker::new();
    let universe = PortAddress::from(0);
    let mut data = AddressMap::new();
    data.insert(universe, DMXData::try_from(vec![255]).unwrap());
    assert_eq!(packer.pack(&data, 0).len(), 1);
    data.insert(universe, DMXData::try_from(vec![254]).unwrap());
    let out = packer.pack(&data, 500);
    assert_eq!(
        out.get(&universe),
        Some(&vec![
            65, 114, 116, 45, 78, 101, 116, 0, 0, 80, 0, 14, 0, 0, 0, 0, 0, 2, 254, 0
        ])
    );
    // 801 ms after the first packet, but only 301 ms after the second
    assert!(packer.pack(&data, 801).is_empty());
    assert!(packer.pack(&data, 1_300).is_empty());
    assert_eq!(packer.pack(&data, 1_301).len(), 1);
}

#[test]
fn a_clock_that_runs_backwards_gets_no_keepalive() {
    let mut packer = ArtPacker::new();
    let mut data = AddressMap::new();
    data.insert(PortAddress::from(0), DMXData::try_from(vec![255]).unwrap());
    assert_eq!(packer.pack(&data, 5_000).len(), 1);
    assert!(packer.pack(&data, 0).is_empty());
}

#[test]
fn times_near_the_end_of_the_clock_do_not_overflow() {
    let mut packer = ArtPacker::new();
    let mut data = AddressMap::new();
    data.insert(PortAddress::from(0), DMXData::try_from(vec![255]).unwrap());
    assert_eq!(packer.pack(&data, u64::MAX - 100).len(), 1);
    assert!(packer.pack(&data, u64::MAX).is_empty());
    let mut late = ArtPacker::new();
    assert_eq!(late.pack(&data, u64::MAX - 801).len(), 1);
    assert!(late.pack(&data, u64::MAX - 1).is_empty());
    assert_eq!(late.pack(&data, u64::MAX).len(), 1);
}

#[test]
fn the_state_holds_exactly_the_universes_of_the_last_input() {
    let mut packer = ArtPacker::new();
    let one = PortAddress::from(1);
    let two = PortAddress::from(2);
    let last = PortAddress::try_from(32_767).unwrap();
    let mut data = AddressMap::new();
    data.insert(one, DMXData::try_from(vec![1]).unwrap());
    data.insert(two, DMXData::try_from(vec![2]).unwrap());
    packer.pack(&data, 0);
    assert_eq!(numbers(packer.universes()), vec![1, 2]);
    // a suppressed universe stays
    packer.pack(&data, 1);
    assert_eq!(numbers(packer.universes()), vec![1, 2]);
    // one leaves, one comes
    data.remove(&one);
    data.insert(last, DMXData::try_from(vec![3]).unwrap());
    let out = packer.pack(&data, 2);
    assert_eq!(numbers(out.keys()), vec![32_767]);
    assert_eq!(numbers(packer.universes()), vec![2, 32_767]);
    // all leave
    let out = packer.pack(&AddressMap::new(), 3);
    assert!(out.is_empty());
    assert!(packer.universes().is_empty());
}

#[test]
fn a_universe_that_comes_back_is_packed_at_once() {
    let mut packer = ArtPacker::new();
    let universe = PortAddress::from(9);
    let mut data = AddressMap::new();
    data.insert(universe, DMXData::try_from(vec![10, 20, 30]).unwrap());
    assert_eq!(packer.pack(&data, 100).len(), 1);
    assert!(packer.pack(&data, 101).is_empty());
    assert!(packer.pack(&AddressMap::new(), 102).is_empty());
    let out = packer.pack(&data, 103);
    assert_eq!(
        out.get(&universe),
        Some(&vec![
            65, 114, 116, 45, 78, 101, 116, 0, 0, 80, 0, 14, 0, 0, 9, 0, 0, 4, 10, 20, 30, 0
        ])
    );
}

#[test]
fn each_universe_is_decided_on_its_own() {
    let mut packer = ArtPacker::new();
    let one = PortAddress::from(1);
    let two = PortAddress::from(2);
    let mut data = AddressMap::new();
    data.insert(one, DMXData::try_from(vec![1]).unwrap());
    assert_eq!(packer.pack(&data, 0).len(), 1);
    // the second universe is new at 500, the first one is unchanged
    data.insert(two, DMXData::try_from(vec![2, 2]).unwrap());
    let out = packer.pack(&data, 500);
    assert_eq!(numbers(out.keys()), vec![2]);
    // at 801 only the first is due
    let out = packer.pack(&data, 801);
    assert_eq!(numbers(out.keys()), vec![1]);
    assert_eq!(
        out.get(&one),
        Some(&vec![
            65, 114, 116, 45, 78, 101, 116, 0, 0, 80, 0, 14, 0, 0, 1, 0, 0, 2, 1, 0
        ])
    );
    // at 1301 only the second is due
    let out = packer.pack(&data, 1_301);
    assert_eq!(numbers(out.keys()), vec![2]);
    // a change of the first alone packs the first alone
    data.insert(one, DMXData::try_from(vec![7]).unwrap());
    let out = packer.pack(&data, 1_302);
    assert_eq!(numbers(out.keys()), vec![1]);
    assert_eq!(numbers(packer.universes()), vec![1, 2]);
}

#[test]
fn two_packers_do_not_share_their_state() {
    let mut first = ArtPacker::new();
    let mut second = ArtPacker::new();
    let mut data = AddressMap::new();
    data.insert(PortAddress::from(0), DMXData::try_from(vec![255]).unwrap());
    assert_eq!(first.pack(&data, 0).len(), 1);
    assert_eq!(second.pack(&data, 0).len(), 1);
    assert!(first.pack(&data, 1).is_empty());
    assert!(second.pack(&data, 1).is_empty());
}
