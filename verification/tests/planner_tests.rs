use storage_proofs_core::api_version::ApiVersion;
use window_post::config::{ProofConfiguration, PoStType};
use window_post::partition::get_partitions_for_window_post;

fn config_with_capacity(sector_count: usize) -> ProofConfiguration {
    ProofConfiguration {
        sector_size: 2048,
        challenge_count: 10,
        sector_count,
        typ: PoStType::Window,
        priority: false,
        api_version: ApiVersion::V1_2_0,
    }
}

#[test]
fn no_partitioning_up_to_capacity() {
    let config = config_with_capacity(2);
    assert_eq!(get_partitions_for_window_post(0, &config), None);
    assert_eq!(get_partitions_for_window_post(1, &config), None);
    assert_eq!(get_partitions_for_window_post(2, &config), None);
}

#[test]
fn two_partitions_above_capacity() {
    let config = config_with_capacity(2);
    assert_eq!(get_partitions_for_window_post(3, &config), Some(2));
    assert_eq!(get_partitions_for_window_post(4, &config), Some(2));
}

#[test]
fn ceiling_division_beyond_two_partitions() {
    let config = config_with_capacity(2);
    assert_eq!(get_partitions_for_window_post(5, &config), Some(3));
    assert_eq!(get_partitions_for_window_post(7, &config), Some(4));
}

#[test]
fn unit_capacity_gives_one_partition_per_sector() {
    let config = config_with_capacity(1);
    assert_eq!(get_partitions_for_window_post(0, &config), None);
    assert_eq!(get_partitions_for_window_post(1, &config), None);
    assert_eq!(get_partitions_for_window_post(2, &config), Some(2));
    assert_eq!(get_partitions_for_window_post(5, &config), Some(5));
}

#[test]
fn large_capacity_scenarios() {
    let config = config_with_capacity(2349);
    assert_eq!(get_partitions_for_window_post(2349, &config), None);
    assert_eq!(get_partitions_for_window_post(2350, &config), Some(2));
    assert_eq!(get_partitions_for_window_post(4698, &config), Some(2));
    assert_eq!(get_partitions_for_window_post(4699, &config), Some(3));
}
