use jito_sdk::net::IpAddress;
use jito_sdk::pool::ConstructionError;
use jito_sdk::pool::IpPool;
use jito_sdk::pool::SelectionAlgorithm;
use jito_sdk::rpc::JitoJsonRpcSDK;

fn loopback() -> IpAddress {
    IpAddress::V4(127, 0, 0, 1)
}

#[test]
fn construct_empty_fails_round_robin() {
    let r = IpPool::construct(Vec::new(), SelectionAlgorithm::RoundRobin);
    assert!(matches!(r, Err(ConstructionError::EmptyPool)));
}

#[test]
fn construct_empty_fails_random() {
    let r = IpPool::construct(Vec::new(), SelectionAlgorithm::Random);
    assert!(matches!(r, Err(ConstructionError::EmptyPool)));
}

#[test]
fn construct_nonempty_succeeds() {
    let addrs = vec![loopback(), loopback(), loopback()];
    let pool = IpPool::construct(addrs, SelectionAlgorithm::RoundRobin).unwrap();
    assert_eq!(pool.len(), 3);
}

#[test]
fn construct_ipv6_succeeds() {
    let addrs = vec![IpAddress::V6(0, 0, 0, 0, 0, 0, 0, 1)];
    let pool = IpPool::construct(addrs, SelectionAlgorithm::Random).unwrap();
    assert_eq!(pool.len(), 1);
}

#[test]
fn round_robin_cycles_in_order() {
    let addrs = vec![loopback(), loopback(), loopback()];
    let mut pool = IpPool::construct(addrs, SelectionAlgorithm::RoundRobin).unwrap();
    let mut picks = Vec::new();
    for _ in 0..7 {
        picks.push(pool.select_index());
    }
    assert_eq!(picks, vec![0, 1, 2, 0, 1, 2, 0]);
}

#[test]
fn round_robin_window_covers_each_index_once() {
    let addrs = vec![loopback(), loopback(), loopback(), loopback()];
    let mut pool = IpPool::construct(addrs, SelectionAlgorithm::RoundRobin).unwrap();
    let mut counts = [0usize; 4];
    for _ in 0..4 {
        counts[pool.select_index()] += 1;
    }
    assert_eq!(counts, [1, 1, 1, 1]);
    assert_eq!(pool.select_index(), 0);
}

#[test]
fn random_indices_stay_in_range_and_cover_pool() {
    let addrs = vec![loopback(), loopback(), loopback()];
    let mut pool = IpPool::construct(addrs, SelectionAlgorithm::Random).unwrap();
    let mut seen = [false; 3];
    for _ in 0..300 {
        let i = pool.select_index();
        assert!(i < 3);
        seen[i] = true;
    }
    assert!(seen[0] && seen[1] && seen[2]);
}

#[test]
fn single_address_pool_always_picks_the_same_handle() {
    let mut rr = IpPool::construct(vec![loopback()], SelectionAlgorithm::RoundRobin).unwrap();
    let mut rnd = IpPool::construct(vec![loopback()], SelectionAlgorithm::Random).unwrap();
    for _ in 0..10 {
        assert_eq!(rr.select_index(), 0);
        assert_eq!(rnd.select_index(), 0);
    }
}

#[test]
fn get_client_never_fails_on_a_built_pool() {
    let addrs = vec![loopback(), loopback()];
    let mut pool = IpPool::construct(addrs, SelectionAlgorithm::RoundRobin).unwrap();
    for _ in 0..5 {
        let _client = pool.get_client();
    }
}

#[test]
fn facade_pooled_mode_construction() {
    let r = JitoJsonRpcSDK::new_with_ip_pool(
        "http://localhost:1234",
        None,
        Vec::new(),
        SelectionAlgorithm::RoundRobin,
    );
    assert!(matches!(r, Err(ConstructionError::EmptyPool)));

    let mut sdk = JitoJsonRpcSDK::new_with_ip_pool(
        "http://localhost:1234",
        None,
        vec![loopback()],
        SelectionAlgorithm::Random,
    )
    .unwrap();
    let _client = sdk.client();
}
