use directshare::map::gen_key;
use directshare::map::PathMap;

#[test]
pub fn gen_key_test() {
    let key = gen_key(21);

    println!("{}", key);

    assert_eq!(key.len(), 21)
}

const ALPHABET: &str = "_-0123456789abcdefghijklmnopqrstuvwxyzABCDEFGHIJKLMNOPQRSTUVWXYZ";

#[test]
fn gen_key_length_and_alphabet() {
    for n in 1..=40 {
        let key = gen_key(n);
        assert_eq!(key.chars().count(), n);
        for c in key.chars() {
            assert!(ALPHABET.contains(c), "unexpected key character {c:?}");
        }
    }
}

#[test]
fn gen_key_empty() {
    assert_eq!(gen_key(0), String::new());
}

#[test]
fn gen_key_roughly_uniform() {
    // Draw 64_000 characters and check the per-symbol counts against the
    // expected 1000 each: the summed squared deviation stays far below the
    // chosen bound for any plausibly uniform source.
    let sample = gen_key(64_000);
    let mut counts = [0u64; 64];
    for c in sample.chars() {
        let idx = ALPHABET.find(c).expect("key character outside the alphabet");
        counts[idx] += 1;
    }
    let mut sum_sq_dev: u64 = 0;
    for &count in counts.iter() {
        let dev = count.abs_diff(1000);
        sum_sq_dev += dev * dev;
    }
    // chi-square with 63 degrees of freedom: statistic = sum_sq_dev / 1000,
    // which stays below 150 except with negligible probability
    assert!(sum_sq_dev < 150_000, "counts deviate too much: {counts:?}");
}

#[test]
fn register_then_resolve_returns_the_path() {
    let mut map = PathMap::new(8);
    let key = map.register("dir/file.txt".to_string());
    assert_eq!(key.chars().count(), 8);
    assert_eq!(map.get(&key), Some(&"dir/file.txt".to_string()));
}

#[test]
fn register_many_then_resolve_each() {
    let mut map = PathMap::new(12);
    let paths = ["a.txt", "b/c.bin", "/abs/path", "d e/f g.tar"];
    let keys: Vec<String> = paths.iter().map(|p| map.register(p.to_string())).collect();
    for (key, path) in keys.iter().zip(paths.iter()) {
        assert_eq!(map.get(key), Some(&path.to_string()));
    }
}

#[test]
fn unknown_key_resolves_to_nothing() {
    let mut map = PathMap::new(8);
    assert_eq!(map.get("anything"), None);
    let key = map.register("file".to_string());
    let mut other = key.clone();
    other.push('x');
    assert_eq!(map.get(&other), None);
    assert_eq!(map.get(""), None);
}

#[test]
fn reregistered_key_is_overwritten() {
    // a key collision silently replaces the previous mapping: the entry
    // registered later wins
    let mut map = PathMap::new(1);
    let mut last = std::collections::HashMap::new();
    for i in 0..200 {
        let path = format!("p{i}");
        let key = map.register(path.clone());
        last.insert(key, path);
    }
    for (key, path) in last {
        assert_eq!(map.get(&key), Some(&path));
    }
}
