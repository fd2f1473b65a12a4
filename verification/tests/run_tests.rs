//! Whole-pipeline scenarios: the worked example and scheduling independence.

use std::sync::{Arc, Mutex};

use sidecar_hasher::config::resolve_config;
use sidecar_hasher::digest::{digest_hex, Algo};
use sidecar_hasher::policy::{required_work, sidecar_name, SidecarPresence};
use task_queue::TaskQueue;

#[test]
fn example_fresh_jar_yields_four_sidecars() {
    // a file lib-1.0.jar with known content and no existing sidecars, run
    // with --threads 2: all four sidecars are planned, named by appending the
    // algorithm extension, each holding the known reference digest
    let cfg = resolve_config(Some(2), false, false, 8).unwrap();
    assert_eq!(cfg.threads, 2);

    let name = b"lib-1.0.jar";
    let content = b"abc";
    let absent = SidecarPresence { md5: false, sha1: false, sha256: false, sha512: false };
    let work = required_work(name, true, &absent);
    assert_eq!(work, vec![Algo::Md5, Algo::Sha1, Algo::Sha256, Algo::Sha512]);

    let expected = [
        (Algo::Md5, "lib-1.0.jar.md5", "900150983cd24fb0d6963f7d28e17f72"),
        (Algo::Sha1, "lib-1.0.jar.sha1", "a9993e364706816aba3e25717850c26c9cd0d89d"),
        (
            Algo::Sha256,
            "lib-1.0.jar.sha256",
            "ba7816bf8f01cfea414140de5dae2223b00361a396177a9cb410ff61f20015ad",
        ),
        (
            Algo::Sha512,
            "lib-1.0.jar.sha512",
            "ddaf35a193617abacc417349ae20413112e6fa4e89a97ea20a9eeee64b55d39a\
             2192992a274fc1a836ba3c23a3feebbd454d4423643ce80e2a9ac94fa54ca49f",
        ),
    ];
    for (i, (alg, side, digest)) in expected.iter().enumerate() {
        assert_eq!(work[i], *alg);
        assert_eq!(sidecar_name(name, *alg), Some(side.as_bytes().to_vec()));
        assert_eq!(digest_hex(*alg, content), *digest);
    }
}

fn run_fixture_with_threads(threads: usize) -> Vec<(String, String)> {
    // hash a small fixture tree's worth of (file, algorithm) work units on a
    // real worker pool and collect what each sidecar would hold
    let fixture: Vec<(&str, &[u8])> = vec![
        ("lib-1.0.jar", b"abc"),
        ("notes.txt", b"Hello world"),
        ("empty.bin", b""),
        ("big.dat", &[42u8; 100_000]),
    ];
    let results: Arc<Mutex<Vec<(String, String)>>> = Arc::new(Mutex::new(Vec::new()));
    let mut queue = TaskQueue::with_threads(1, threads).unwrap();
    for (name, content) in fixture {
        for alg in [Algo::Md5, Algo::Sha1, Algo::Sha256, Algo::Sha512] {
            let results = Arc::clone(&results);
            let side = sidecar_name(name.as_bytes(), alg).unwrap();
            let content = content.to_vec();
            queue
                .enqueue(move || {
                    let side = String::from_utf8(side.clone()).unwrap();
                    let hex = digest_hex(alg, &content);
                    results.lock().unwrap().push((side, hex));
                })
                .unwrap();
        }
    }
    queue.stop_wait();
    let mut out = results.lock().unwrap().clone();
    out.sort();
    out
}

#[test]
fn thread_count_does_not_change_the_outcome() {
    // thread counts 1, 4 and 64 over the same fixture: identical sidecar
    // sets with identical content, nothing lost, nothing duplicated
    let one = run_fixture_with_threads(1);
    let four = run_fixture_with_threads(4);
    let many = run_fixture_with_threads(64);
    assert_eq!(one.len(), 16);
    assert_eq!(one, four);
    assert_eq!(one, many);
    for w in one.windows(2) {
        assert_ne!(w[0].0, w[1].0);
    }
}
