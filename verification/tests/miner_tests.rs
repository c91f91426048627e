use nonce_search::miner::compute_budget;
use nonce_search::miner::cutoff_seconds;
use nonce_search::miner::exceeds_cores;
use nonce_search::miner::pick_bus;
use nonce_search::miner::read_bus;
use nonce_search::miner::read_buses;
use nonce_search::miner::reset_by_lot;
use nonce_search::miner::reset_drawn;
use nonce_search::miner::reset_due;
use nonce_search::miner::richest_bus;
use nonce_search::miner::Bus;
use nonce_search::miner::Miner;
use nonce_search::miner::ACCOUNT_HEADER_LEN;
use nonce_search::miner::BUS_ACCOUNT_LEN;
use nonce_search::miner::BUS_ID_AT;
use nonce_search::miner::BUS_REWARDS_AT;
use nonce_search::miner::BUS_TAG;
use ore_utils::AccountDeserialize;

fn bus_account(id: u64, rewards: u64) -> Vec<u8> {
    let mut data = vec![BUS_TAG, 0, 0, 0, 0, 0, 0, 0];
    data.extend_from_slice(&id.to_ne_bytes());
    data.extend_from_slice(&rewards.to_ne_bytes());
    data.extend_from_slice(&7u64.to_ne_bytes());
    data.extend_from_slice(&9u64.to_ne_bytes());
    data
}

fn decoded_by_ore(data: &[u8]) -> Option<Bus> {
    match ore_api::state::Bus::try_from_bytes(data) {
        Ok(bus) => Some(Bus { id: bus.id, rewards: bus.rewards }),
        Err(_) => None,
    }
}

fn reference_cutoff(last_hash_at: i64, buffer_time: u64, now: i64) -> u64 {
    last_hash_at
        .saturating_add(60)
        .saturating_sub(buffer_time as i64)
        .saturating_sub(now)
        .max(0) as u64
}

#[test]
fn cutoff_is_what_is_left_of_the_round() {
    assert_eq!(cutoff_seconds(1_000, 5, 1_000), 55);
    assert_eq!(cutoff_seconds(1_000, 5, 1_010), 45);
    assert_eq!(cutoff_seconds(1_000, 0, 1_000), 60);
    assert_eq!(cutoff_seconds(1_000, 5, 1_055), 0);
    assert_eq!(cutoff_seconds(1_000, 5, 1_056), 0);
    assert_eq!(cutoff_seconds(1_000, 5, 2_000), 0);
    assert_eq!(cutoff_seconds(1_000, 60, 1_000), 0);
    assert_eq!(cutoff_seconds(1_000, 61, 1_000), 0);
    assert_eq!(cutoff_seconds(0, 0, 0), 60);
}

#[test]
fn cutoff_saturates_at_the_ends_of_the_range() {
    assert_eq!(cutoff_seconds(i64::MAX, 0, 0), i64::MAX as u64);
    assert_eq!(cutoff_seconds(i64::MAX, 0, -1), i64::MAX as u64);
    assert_eq!(cutoff_seconds(i64::MAX, 10, 0), (i64::MAX - 10) as u64);
    assert_eq!(cutoff_seconds(i64::MIN, 0, 0), 0);
    assert_eq!(cutoff_seconds(0, 0, i64::MIN), i64::MAX as u64);
    assert_eq!(cutoff_seconds(0, u64::MAX, 0), 61);
    assert_eq!(cutoff_seconds(0, 1 << 63, 0), i64::MAX as u64);
}

#[test]
fn cutoff_agrees_with_saturating_arithmetic() {
    let corners = [i64::MIN, i64::MIN + 1, -61, -60, -1, 0, 1, 59, 60, 61, i64::MAX - 60, i64::MAX - 1, i64::MAX];
    let buffers = [0u64, 1, 5, 60, i64::MAX as u64, (i64::MAX as u64) + 1, u64::MAX - 1, u64::MAX];
    for last_hash_at in corners {
        for buffer_time in buffers {
            for now in corners {
                assert_eq!(
                    cutoff_seconds(last_hash_at, buffer_time, now),
                    reference_cutoff(last_hash_at, buffer_time, now)
                );
            }
        }
    }
}

#[test]
fn reset_is_due_once_the_epoch_is_over() {
    assert!(!reset_due(1_000, 60, 1_059));
    assert!(reset_due(1_000, 60, 1_060));
    assert!(reset_due(1_000, 60, 1_061));
    assert!(reset_due(0, 60, 60));
    assert!(!reset_due(i64::MAX, 60, i64::MAX - 1));
    assert!(reset_due(i64::MAX, 60, i64::MAX));
    assert!(reset_due(i64::MIN, -1, i64::MIN));
}

#[test]
fn reset_is_sent_on_a_draw_of_zero_when_due() {
    assert!(reset_drawn(true, 0));
    assert!(!reset_drawn(true, 1));
    assert!(!reset_drawn(true, 99));
    assert!(!reset_drawn(false, 0));
    assert!(!reset_drawn(false, 5));
}

#[test]
fn no_reset_by_lot_unless_due() {
    for _ in 0..200 {
        assert!(!reset_by_lot(false));
    }
}

#[test]
fn reset_by_lot_comes_up_about_one_time_in_a_hundred() {
    let mut sent = 0u32;
    for _ in 0..20_000 {
        if reset_by_lot(true) {
            sent += 1;
        }
    }
    assert!(sent > 50);
    assert!(sent < 600);
}

#[test]
fn compute_budget_grows_with_a_reset() {
    assert_eq!(compute_budget(false), 500_000);
    assert_eq!(compute_budget(true), 600_000);
}

#[test]
fn richest_bus_is_the_first_with_the_most_rewards() {
    let buses = vec![
        Some(Bus { id: 0, rewards: 10 }),
        Some(Bus { id: 1, rewards: 70 }),
        Some(Bus { id: 2, rewards: 70 }),
        Some(Bus { id: 3, rewards: 5 }),
    ];
    assert_eq!(richest_bus(&buses), 1);
    let buses = vec![
        Some(Bus { id: 4, rewards: 1 }),
        None,
        Some(Bus { id: 6, rewards: 9 }),
        None,
        Some(Bus { id: 2, rewards: 8 }),
    ];
    assert_eq!(richest_bus(&buses), 6);
}

#[test]
fn richest_bus_is_zero_when_no_bus_holds_rewards() {
    assert_eq!(richest_bus(&Vec::new()), 0);
    assert_eq!(richest_bus(&vec![None, None]), 0);
    assert_eq!(richest_bus(&vec![Some(Bus { id: 3, rewards: 0 }), Some(Bus { id: 5, rewards: 0 })]), 0);
}

#[test]
fn pick_bus_takes_the_richest_when_fetched() {
    let buses = vec![Some(Bus { id: 2, rewards: 3 }), Some(Bus { id: 7, rewards: 4 })];
    assert_eq!(pick_bus(Some(&buses), 8), 7);
}

#[test]
fn pick_bus_draws_within_the_bus_count_when_not_fetched() {
    let mut seen = [false; 8];
    for _ in 0..2_000 {
        let id = pick_bus(None, 8);
        assert!(id < 8);
        seen[id as usize] = true;
    }
    assert!(seen.iter().all(|hit| *hit));
    for _ in 0..50 {
        assert_eq!(pick_bus(None, 1), 0);
    }
}

#[test]
fn exceeds_cores_is_strict() {
    assert!(!exceeds_cores(0, 4));
    assert!(!exceeds_cores(4, 4));
    assert!(exceeds_cores(5, 4));
    assert!(exceeds_cores(1, 0));
    assert!(exceeds_cores(u64::MAX, 1));
}

#[test]
fn check_num_cores_warns_only_above_what_the_machine_has() {
    let miner = Miner::new();
    let available = num_cpus::get() as u64;
    assert_eq!(miner.check_num_cores(0), None);
    assert_eq!(miner.check_num_cores(available), None);
    assert_eq!(miner.check_num_cores(available + 1), Some(available));
    assert_eq!(miner.check_num_cores(u64::MAX), Some(available));
}

#[test]
fn first_round_reports_no_change() {
    let mut miner = Miner::new();
    assert_eq!(miner.last_hash_at(), 0);
    assert_eq!(miner.begin_round(500, 1_700_000_000), None);
    assert_eq!(miner.last_hash_at(), 1_700_000_000);
}

#[test]
fn later_rounds_report_the_growth_of_the_stake() {
    let mut miner = Miner::new();
    miner.begin_round(500, 1_700_000_000);
    assert_eq!(miner.begin_round(650, 1_700_000_060), Some(150));
    assert_eq!(miner.begin_round(650, 1_700_000_120), Some(0));
    assert_eq!(miner.begin_round(100, 1_700_000_180), Some(0));
    assert_eq!(miner.begin_round(101, 1_700_000_240), Some(1));
    assert_eq!(miner.last_hash_at(), 1_700_000_240);
}

#[test]
fn a_round_that_never_hashed_reports_no_change_next_time() {
    let mut miner = Miner::new();
    assert_eq!(miner.begin_round(500, 0), None);
    assert_eq!(miner.begin_round(900, 10), None);
    assert_eq!(miner.begin_round(950, 20), Some(50));
}

#[test]
fn bus_account_layout() {
    assert_eq!(BUS_TAG, 100);
    assert_eq!(ACCOUNT_HEADER_LEN, 8);
    assert_eq!(BUS_ACCOUNT_LEN, 40);
    assert_eq!(BUS_ACCOUNT_LEN, ACCOUNT_HEADER_LEN + std::mem::size_of::<ore_api::state::Bus>());
    assert_eq!(bus_account(1, 2).len(), BUS_ACCOUNT_LEN);
}

#[test]
fn read_bus_agrees_with_the_decoder() {
    for (id, rewards) in [(0u64, 0u64), (3, 250_000), (7, u64::MAX), (u64::MAX, 1)] {
        let data = bus_account(id, rewards);
        let ours = read_bus(&data);
        assert_eq!(ours, decoded_by_ore(&data));
        if let Some(bus) = ours {
            assert_eq!(bus, Bus { id, rewards });
        }
    }
}

#[test]
fn read_bus_takes_the_fields_of_a_bus_account() {
    let data = bus_account(5, 123_456);
    assert_eq!(decoded_by_ore(&data), Some(Bus { id: 5, rewards: 123_456 }));
    assert_eq!(read_bus(&data), Some(Bus { id: 5, rewards: 123_456 }));
}

#[test]
fn read_bus_refuses_what_is_no_bus_account() {
    assert_eq!(read_bus(&[]), None);
    assert_eq!(read_bus(&[BUS_TAG]), None);
    assert_eq!(read_bus(&[BUS_TAG, 0, 0, 0, 0, 0, 0]), None);
    assert_eq!(read_bus(&[BUS_TAG, 0, 0, 0, 0, 0, 0, 0]), None);
    let mut wrong_tag = bus_account(1, 2);
    wrong_tag[0] = 101;
    assert_eq!(read_bus(&wrong_tag), None);
    let mut too_long = bus_account(1, 2);
    too_long.push(0);
    assert_eq!(read_bus(&too_long), None);
    let mut too_short = bus_account(1, 2);
    too_short.pop();
    assert_eq!(read_bus(&too_short), None);
}

#[test]
fn read_buses_keeps_every_account_in_its_place() {
    let accounts = vec![
        Some(bus_account(0, 10)),
        None,
        Some(vec![1, 2, 3]),
        Some(bus_account(3, 40)),
        Some(Vec::new()),
    ];
    let buses = read_buses(&accounts);
    assert_eq!(buses.len(), 5);
    assert_eq!(buses[0], decoded_by_ore(accounts[0].as_ref().unwrap()));
    assert_eq!(buses[1], None);
    assert_eq!(buses[2], None);
    assert_eq!(buses[3], decoded_by_ore(accounts[3].as_ref().unwrap()));
    assert_eq!(buses[4], None);
    assert_eq!(read_buses(&Vec::new()), Vec::new());
}

#[test]
fn the_richest_of_the_fetched_accounts_is_picked() {
    let accounts = vec![
        Some(bus_account(0, 10)),
        Some(bus_account(1, 90)),
        None,
        Some(bus_account(3, 90)),
    ];
    let buses = read_buses(&accounts);
    assert_eq!(buses[1], Some(Bus { id: 1, rewards: 90 }));
    assert_eq!(pick_bus(Some(&buses), 8), 1);
}

#[test]
fn read_bus_reads_both_fields_at_their_offsets_in_one_byte_order() {
    assert_eq!(BUS_ID_AT, 8);
    assert_eq!(BUS_REWARDS_AT, 16);
    let mut data = vec![0u8; BUS_ACCOUNT_LEN];
    data[0] = BUS_TAG;
    for at in 8..BUS_ACCOUNT_LEN {
        data[at] = at as u8;
    }
    let id_bytes = [8u8, 9, 10, 11, 12, 13, 14, 15];
    let rewards_bytes = [16u8, 17, 18, 19, 20, 21, 22, 23];
    let low_first = Bus {
        id: u64::from_le_bytes(id_bytes),
        rewards: u64::from_le_bytes(rewards_bytes),
    };
    let high_first = Bus {
        id: u64::from_be_bytes(id_bytes),
        rewards: u64::from_be_bytes(rewards_bytes),
    };
    assert_eq!(low_first.id, 0x0f0e_0d0c_0b0a_0908);
    assert_eq!(high_first.rewards, 0x1011_1213_1415_1617);
    let native = Bus {
        id: u64::from_ne_bytes(id_bytes),
        rewards: u64::from_ne_bytes(rewards_bytes),
    };
    assert!(native == low_first || native == high_first);
    let bus = read_bus(&data);
    assert_eq!(bus, decoded_by_ore(&data));
    assert_eq!(bus, Some(native));
}

#[test]
fn read_buses_reads_the_fields_of_every_bus() {
    let accounts = vec![Some(bus_account(2, 77)), None, Some(bus_account(6, u64::MAX))];
    let buses = read_buses(&accounts);
    assert_eq!(
        buses,
        vec![Some(Bus { id: 2, rewards: 77 }), None, Some(Bus { id: 6, rewards: u64::MAX })]
    );
}

#[test]
fn nobody_is_warned_for_asking_for_no_core() {
    let miner = Miner::new();
    for _ in 0..10 {
        assert_eq!(miner.check_num_cores(0), None);
    }
}

#[test]
fn the_warning_names_the_cores_of_the_machine() {
    let miner = Miner::new();
    let available = num_cpus::get() as u64;
    for cores in [1u64, 2, 3, 4, 8, 64, 1_000_000] {
        let expected = if cores > available { Some(available) } else { None };
        assert_eq!(miner.check_num_cores(cores), expected);
    }
}
