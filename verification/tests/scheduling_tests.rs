use std::sync::Arc;

use deston::algorithm::Algorithm;
use deston::config::{Algorithm as AlgorithmName, Config};
use deston::ip_hashing::{index_from_digest, IpHashing};
use deston::load_balancer::{pick_server, PickServerError};
use deston::round_robin::RoundRobin;
use deston::scheduler::Scheduler;
use deston::server::Server;
use deston::weighted_round_robin::WeightedRoundRobin;
use deston::weighted_rr::{weighted_turn, WeightRr};
use http::Uri;

fn pool(weights: &[usize]) -> Arc<Vec<Arc<Server>>> {
    let mut servers = Vec::new();
    for (i, weight) in weights.iter().enumerate() {
        let uri = format!("http://127.0.0.1:{}", 3000 + i).parse::<Uri>().unwrap();
        servers.push(Arc::new(Server::new(uri, 1000, *weight)));
    }
    Arc::new(servers)
}

fn config_text(algorithm: &str, weights: &[usize]) -> String {
    let mut text = format!("[load_balancer]\nalgorithm = \"{}\"\n", algorithm);
    for (i, weight) in weights.iter().enumerate() {
        text.push_str(&format!("[[server]]\nport = {}\nweight = {}\n", 3000 + i, weight));
    }
    text
}

#[test]
fn round_robin_million_picks_are_fair() {
    for n in [1usize, 3, 7, 64] {
        let servers = pool(&vec![1; n]);
        let mut algorithm = RoundRobin::new();
        let mut count = vec![0usize; n];
        for _ in 0..1_000_000 {
            let (index, _) = algorithm.pick_server(servers.clone(), "c").unwrap();
            count[index] += 1;
        }
        let floor = 1_000_000 / n;
        let ceil = (1_000_000 + n - 1) / n;
        for k in 0..n {
            assert!(count[k] == floor || count[k] == ceil);
            let expected = floor + if k < 1_000_000 % n { 1 } else { 0 };
            assert_eq!(count[k], expected);
        }
    }
}

#[test]
fn round_robin_window_from_any_cursor() {
    let servers = pool(&[1, 1, 1, 1]);
    let mut algorithm = RoundRobin::new();
    for _ in 0..3 {
        algorithm.pick_server(servers.clone(), "c").unwrap();
    }
    let mut count = [0usize; 4];
    for _ in 0..20 {
        let (index, _) = algorithm.pick_server(servers.clone(), "c").unwrap();
        count[index] += 1;
    }
    assert_eq!(count, [5, 5, 5, 5]);
}

#[test]
fn round_robin_wraps_a_cursor_left_by_a_larger_pool() {
    let large = pool(&[1, 1, 1, 1, 1]);
    let small = pool(&[1, 1]);
    let mut algorithm = RoundRobin::new();
    for _ in 0..4 {
        algorithm.pick_server(large.clone(), "c").unwrap();
    }
    // the cursor stands at 4; on two backends that is position 0
    assert_eq!(algorithm.pick_server(small.clone(), "c").unwrap().0, 0);
    assert_eq!(algorithm.pick_server(small.clone(), "c").unwrap().0, 1);
}

#[test]
fn every_algorithm_fails_on_an_empty_pool() {
    let empty = pool(&[]);
    let mut rr = RoundRobin::new();
    assert!(matches!(rr.pick_server(empty.clone(), "c"), Err(PickServerError::EmptyPool)));
    let mut wrr = WeightedRoundRobin::new();
    assert!(matches!(wrr.pick_server(empty.clone(), "c"), Err(PickServerError::EmptyPool)));
    let mut hash = IpHashing::new();
    assert!(matches!(hash.pick_server(empty.clone(), "c"), Err(PickServerError::EmptyPool)));
    // the round-robin cursor stayed where it was
    let servers = pool(&[1, 1]);
    assert_eq!(rr.pick_server(servers, "c").unwrap().0, 0);
}

#[test]
fn pick_returns_the_pools_own_backend() {
    let servers = pool(&[2, 1, 1]);
    let mut rr = RoundRobin::new();
    let mut wrr = WeightedRoundRobin::new();
    let mut hash = IpHashing::new();
    for _ in 0..7 {
        let (index, server) = rr.pick_server(servers.clone(), "c").unwrap();
        assert!(Arc::ptr_eq(&server, &servers[index]));
        let (index, server) = wrr.pick_server(servers.clone(), "c").unwrap();
        assert!(Arc::ptr_eq(&server, &servers[index]));
        let (index, server) = hash.pick_server(servers.clone(), "c").unwrap();
        assert!(Arc::ptr_eq(&server, &servers[index]));
    }
}

#[test]
fn weighted_picks_follow_weights_exactly() {
    let weights = [3usize, 0, 1, 5, 0, 2];
    let total: usize = weights.iter().sum();
    let servers = pool(&weights);
    let mut algorithm = WeightedRoundRobin::new();
    let cycles = 9;
    let mut count = vec![0usize; weights.len()];
    let mut picks = Vec::new();
    for _ in 0..cycles * total {
        let (index, server) = algorithm.pick_server(servers.clone(), "c").unwrap();
        assert!(server.weight > 0);
        count[index] += 1;
        picks.push(index);
    }
    for k in 0..weights.len() {
        assert_eq!(count[k], cycles * weights[k]);
    }
    // within a super-cycle the turns go in pool order, each backend's in a row
    assert_eq!(&picks[..total], &[0, 0, 0, 2, 3, 3, 3, 3, 3, 5, 5]);
    assert_eq!(&picks[total..2 * total], &picks[..total]);
}

#[test]
fn weighted_single_backend_keeps_its_turn() {
    let servers = pool(&[0, 2, 0]);
    let mut algorithm = WeightedRoundRobin::new();
    for _ in 0..5 {
        assert_eq!(algorithm.pick_server(servers.clone(), "c").unwrap().0, 1);
    }
}

#[test]
fn weighted_turn_by_hand() {
    let weights = vec![3usize, 1];
    assert_eq!(weighted_turn(&weights, 0, 0), (0, 1));
    assert_eq!(weighted_turn(&weights, 0, 2), (0, 3));
    assert_eq!(weighted_turn(&weights, 0, 3), (1, 1));
    assert_eq!(weighted_turn(&weights, 1, 1), (0, 1));
    // a position beyond the pool counts round the pool
    assert_eq!(weighted_turn(&weights, 3, 0), (1, 1));
    // a spent position whose neighbours have no weight takes the turn again
    assert_eq!(weighted_turn(&vec![0, 4, 0], 1, 4), (1, 1));
}

#[test]
fn weighted_rotation_over_names() {
    let mut rotation = WeightRr::new(vec![
        ("a".to_string(), 2),
        ("b".to_string(), 0),
        ("c".to_string(), 1),
    ]);
    assert!(rotation.can_pick());
    let mut names = Vec::new();
    for _ in 0..6 {
        names.push(rotation.next_server());
    }
    assert_eq!(names, vec!["a", "a", "c", "a", "a", "c"]);
    let idle = WeightRr::new(vec![("a".to_string(), 0)]);
    assert!(!idle.can_pick());
    let empty = WeightRr::new(Vec::new());
    assert!(!empty.can_pick());
}

#[test]
fn ip_hash_index_is_the_digest_head_modulo_the_pool() {
    // the first eight bytes of SHA-256("127.0.0.1:5000"), big-endian, are
    // 17982574186109849297
    let mut algorithm = IpHashing::new();
    assert_eq!(algorithm.pick_server(pool(&[1; 3]), "127.0.0.1:5000").unwrap().0, 2);
    assert_eq!(algorithm.pick_server(pool(&[1; 5]), "127.0.0.1:5000").unwrap().0, 2);
    assert_eq!(algorithm.pick_server(pool(&[1; 1]), "127.0.0.1:5000").unwrap().0, 0);
    assert_eq!(algorithm.pick_server(pool(&[1; 3]), "10.0.0.7:41234").unwrap().0, 0);
    assert_eq!(algorithm.pick_server(pool(&[1; 5]), "10.0.0.7:41234").unwrap().0, 1);
    let expected = [2usize, 2, 1, 1, 2, 2, 1, 0, 1, 2];
    for (i, port) in (5000..5010).enumerate() {
        let address = format!("127.0.0.1:{}", port);
        assert_eq!(algorithm.pick_server(pool(&[1; 3]), &address).unwrap().0, expected[i]);
    }
}

#[test]
fn ip_hash_same_address_same_index_and_in_range() {
    let mut algorithm = IpHashing::new();
    for n in 1..20usize {
        let servers = pool(&vec![1; n]);
        for port in 0..40 {
            let address = format!("192.168.7.{}:{}", port, 1000 + port);
            let (first, _) = algorithm.pick_server(servers.clone(), &address).unwrap();
            let (second, _) = algorithm.pick_server(servers.clone(), &address).unwrap();
            assert_eq!(first, second);
            assert!(first < n);
        }
    }
}

#[test]
fn index_from_digest_by_hand() {
    let digest = [1u8, 2, 3, 4, 5, 6, 7, 8, 9, 10];
    assert_eq!(index_from_digest(&digest, 1000).unwrap(), 72623859790382856 % 1000);
    assert_eq!(index_from_digest(&digest[..8], 7).unwrap(), (72623859790382856u64 % 7) as usize);
    assert_eq!(index_from_digest(&[255u8; 8], 10).unwrap(), (u64::MAX % 10) as usize);
    assert_eq!(index_from_digest(&[0u8; 32], 3).unwrap(), 0);
    assert!(matches!(index_from_digest(&digest[..7], 3), Err(PickServerError::IndexArithmetic)));
    assert!(matches!(index_from_digest(&[], 3), Err(PickServerError::IndexArithmetic)));
    assert!(matches!(index_from_digest(&digest, 0), Err(PickServerError::EmptyPool)));
    assert!(matches!(index_from_digest(&[], 0), Err(PickServerError::EmptyPool)));
}

#[test]
fn error_messages() {
    assert_eq!(PickServerError::EmptyPool.message(), "No backend in the pool");
    assert_eq!(
        PickServerError::IndexArithmetic.message(),
        "Failed to convert bytes to usize: could not convert slice to array"
    );
    assert_eq!(
        PickServerError::MutexPoisonError("poisoned lock".to_string()).message(),
        "Mutex lock poisoned: poisoned lock"
    );
}

#[test]
fn dispatcher_records_the_index_it_returns() {
    for (name, weights) in [
        ("round_robin", vec![1usize, 1, 1]),
        ("weighted_round_robin", vec![2, 1, 3]),
        ("ip_hashing", vec![1, 1, 1, 1]),
    ] {
        let mut config = Config::new(&config_text(name, &weights)).unwrap();
        assert!(config.is_ready());
        let mut shadow = Scheduler::new(config.algorithm);
        for i in 0..25 {
            let address = format!("127.0.0.1:{}", 5000 + i);
            let server = pick_server(&mut config, &address).unwrap();
            let (index, _) = shadow.pick_server(config.servers.clone(), &address).unwrap();
            assert_eq!(config.last_picked_index, index);
            assert!(Arc::ptr_eq(&server, &config.servers[config.last_picked_index]));
        }
    }
}

#[test]
fn dispatcher_on_an_empty_pool_changes_nothing() {
    let mut config = Config::new("server = []\n").unwrap();
    assert!(matches!(pick_server(&mut config, "127.0.0.1:1"), Err(PickServerError::EmptyPool)));
    assert_eq!(config.last_picked_index, 0);
    assert_eq!(config.servers.len(), 0);
}

#[test]
fn scheduler_kinds() {
    let servers = pool(&[1, 3]);
    let mut rr = Scheduler::new(AlgorithmName::RoundRobin);
    assert!(matches!(rr, Scheduler::RoundRobin(_)));
    let picks: Vec<usize> =
        (0..4).map(|_| rr.pick_server(servers.clone(), "c").unwrap().0).collect();
    assert_eq!(picks, vec![0, 1, 0, 1]);
    let mut wrr = Scheduler::new(AlgorithmName::WeightedRoundRobin);
    assert!(matches!(wrr, Scheduler::WeightedRoundRobin(_)));
    let picks: Vec<usize> =
        (0..8).map(|_| wrr.pick_server(servers.clone(), "c").unwrap().0).collect();
    assert_eq!(picks, vec![0, 1, 1, 1, 0, 1, 1, 1]);
    let mut hash = Scheduler::new(AlgorithmName::IpHashing);
    assert!(matches!(hash, Scheduler::IpHashing(_)));
    assert_eq!(hash.pick_server(pool(&[1; 3]), "127.0.0.1:5001").unwrap().0, 2);
}

#[test]
fn readiness_under_weighted_round_robin() {
    let mut config = Config::new(&config_text("weighted_round_robin", &[1, 2])).unwrap();
    assert!(config.is_ready());
    config.servers = pool(&[0, 0]);
    assert!(!config.is_ready());
    config.servers = pool(&[0, 4]);
    assert!(config.is_ready());
    config.servers = pool(&[]);
    assert!(config.is_ready());
    let mut plain = Config::new(&config_text("round_robin", &[1])).unwrap();
    plain.servers = pool(&[0, 0]);
    assert!(plain.is_ready());
}

#[test]
fn server_try_new_wants_host_and_port() {
    let whole = "http://10.0.0.1:81/x".parse::<Uri>().unwrap();
    let server = Server::try_new(whole, 9, 4).unwrap();
    assert_eq!(server.host, "10.0.0.1");
    assert_eq!(server.port, 81);
    assert_eq!(server.uri.to_string(), "http://10.0.0.1:81/x");
    assert_eq!(server.max_connections, 9);
    assert_eq!(server.weight, 4);
    assert_eq!(server.counters.read().unwrap().connections, 0);
    assert!(server.counters.read().unwrap().is_alive);
    assert!(Server::try_new("http://10.0.0.1/x".parse::<Uri>().unwrap(), 9, 4).is_none());
    assert!(Server::try_new("/only/a/path".parse::<Uri>().unwrap(), 9, 4).is_none());
    assert!(Server::try_new("host:70000".parse::<Uri>().unwrap(), 9, 4).is_none());
}
