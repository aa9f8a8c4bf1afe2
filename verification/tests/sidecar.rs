use maestro::engine::Notification;
use maestro::number::{combination_sign, Single};
use maestro::sidecar::api::{Method, RequestBody, SidecarClient};
use maestro::sidecar::manager::{
    is_ready, poll_advance, start_sidecar, PollEvent, PollStep, SidecarPoll, MAX_ATTEMPTS,
    SIDECAR_PORT,
};
use maestro::text::{push_integer, push_natural};

#[test]
fn sidecar_found_at_first_check() {
    let (poll, step) = start_sidecar();
    assert_eq!(step, PollStep::CheckHealth);
    assert!(!is_ready(&poll));
    let (poll, step) = poll_advance(poll, PollEvent::HealthAnswer { healthy: true });
    assert_eq!(step, PollStep::Announce(Notification::SidecarConnectionChanged(true)));
    assert!(is_ready(&poll));
    assert_eq!(
        Notification::SidecarConnectionChanged(true).event_name(),
        "sidecar-connection-changed"
    );
    assert_eq!(poll_advance(poll, PollEvent::WaitOver), (SidecarPoll::Ready, PollStep::Ignore));
}

#[test]
fn sidecar_found_after_some_failures() {
    let (mut poll, _) = start_sidecar();
    for attempt in 1..=12u32 {
        let (next, step) = poll_advance(poll, PollEvent::HealthAnswer { healthy: false });
        assert_eq!(step, PollStep::Wait { seconds: 1, first: attempt == 1 });
        assert_eq!(next, SidecarPoll::Waiting { attempt });
        let (next, step) = poll_advance(next, PollEvent::WaitOver);
        assert_eq!(step, PollStep::CheckHealth);
        assert_eq!(next, SidecarPoll::Checking { attempt: attempt + 1 });
        poll = next;
    }
    let (poll, step) = poll_advance(poll, PollEvent::HealthAnswer { healthy: true });
    assert_eq!(step, PollStep::Announce(Notification::SidecarConnectionChanged(true)));
    assert!(is_ready(&poll));
}

#[test]
fn sidecar_wait_gives_up_after_sixty_checks() {
    assert_eq!(MAX_ATTEMPTS, 60);
    assert_eq!(SIDECAR_PORT, 9400);
    let (mut poll, _) = start_sidecar();
    let mut checks = 1;
    loop {
        let (next, step) = poll_advance(poll, PollEvent::HealthAnswer { healthy: false });
        assert!(matches!(step, PollStep::Wait { seconds: 1, .. }));
        let (next, step) = poll_advance(next, PollEvent::WaitOver);
        poll = next;
        match step {
            PollStep::CheckHealth => checks += 1,
            PollStep::Announce(n) => {
                assert_eq!(n, Notification::SidecarConnectionChanged(false));
                break;
            }
            other => panic!("{other:?}"),
        }
    }
    assert_eq!(checks, 60);
    assert_eq!(poll, SidecarPoll::GaveUp);
    assert!(!is_ready(&poll));
    assert_eq!(
        poll_advance(poll, PollEvent::HealthAnswer { healthy: true }),
        (SidecarPoll::GaveUp, PollStep::Ignore)
    );
}

#[test]
fn sidecar_ignores_events_out_of_turn() {
    let checking = SidecarPoll::Checking { attempt: 3 };
    assert_eq!(poll_advance(checking, PollEvent::WaitOver), (checking, PollStep::Ignore));
    let waiting = SidecarPoll::Waiting { attempt: 3 };
    assert_eq!(
        poll_advance(waiting, PollEvent::HealthAnswer { healthy: true }),
        (waiting, PollStep::Ignore)
    );
}

#[test]
fn sidecar_requests() {
    let client = SidecarClient::new(SIDECAR_PORT);
    let health = client.health();
    assert_eq!(health.method, Method::Get);
    assert_eq!(health.url, "http://127.0.0.1:9400/health");
    assert_eq!(health.body, RequestBody::Empty);
    let search = client.search_text("warm pad", 10);
    assert_eq!(search.method, Method::Post);
    assert_eq!(search.url, "http://127.0.0.1:9400/search/text");
    assert_eq!(
        search.body,
        RequestBody::SearchText { query: "warm pad".to_string(), n_results: 10 }
    );
    let similar = client.search_similar("/s/kick.wav", 5);
    assert_eq!(similar.url, "http://127.0.0.1:9400/search/similar");
    assert_eq!(
        similar.body,
        RequestBody::SearchSimilar { reference_file_path: "/s/kick.wav".to_string(), n_results: 5 }
    );
    let files = client.index_files(vec!["/a.wav".to_string(), "/b.wav".to_string()]);
    assert_eq!(files.url, "http://127.0.0.1:9400/index");
    assert_eq!(
        files.body,
        RequestBody::IndexFiles { file_paths: vec!["/a.wav".to_string(), "/b.wav".to_string()] }
    );
    let directory = SidecarClient::new(80).index_directory("/samples");
    assert_eq!(directory.method, Method::Post);
    assert_eq!(directory.url, "http://127.0.0.1:80/index/directory");
    assert_eq!(directory.body, RequestBody::IndexDirectory { directory: "/samples".to_string() });
}

#[test]
fn decimal_text_of_integers() {
    for n in [0u64, 7, 10, 99, 100, 65535, 1234567890, u64::MAX] {
        let mut out = String::from("n=");
        push_natural(&mut out, n);
        assert_eq!(out, format!("n={n}"));
    }
    for n in [0i32, 1, -1, 9, -10, 15, 16, i32::MAX, i32::MIN] {
        let mut out = String::new();
        push_integer(&mut out, n);
        assert_eq!(out, n.to_string());
    }
}

fn exact(x: f32) -> f64 {
    x as f64
}

#[test]
fn combination_sign_agrees_with_wide_arithmetic() {
    // Every term below 2^26 in steps of 2^-24: the sums are exact in binary64.
    let values = [
        0.0f32, -0.0, 1.0, -1.0, 0.5, 0.75, 3.0, 20.0, 999.0, 123.456, -77.25, 65536.0, -1000.5,
        0.6, 2.5, 127.0,
    ];
    let coefficients = [-255, -254, -127, -1, 0, 1, 2, 127, 253, 255];
    for (i, &x) in values.iter().enumerate() {
        for (j, &y) in values.iter().enumerate() {
            let z = values[(i * 7 + j * 3) % values.len()];
            for &a in &coefficients {
                let b = coefficients[(i + j) % coefficients.len()];
                let c = coefficients[(i * 3 + j * 5 + 1) % coefficients.len()];
                let sum = a as f64 * exact(x) + b as f64 * exact(y) + c as f64 * exact(z);
                let expected = if sum > 0.0 {
                    1
                } else if sum < 0.0 {
                    -1
                } else {
                    0
                };
                let got = combination_sign(
                    a,
                    Single::from_bits(x.to_bits()),
                    b,
                    Single::from_bits(y.to_bits()),
                    c,
                    Single::from_bits(z.to_bits()),
                );
                assert_eq!(got, Some(expected), "{a}*{x} + {b}*{y} + {c}*{z}");
            }
        }
    }
}

#[test]
fn combination_sign_on_far_apart_exponents() {
    let huge = Single::from_bits(f32::MAX.to_bits());
    let minus_huge = Single::from_bits((-f32::MAX).to_bits());
    let tiny = Single::from_bits(1);
    let minus_tiny = Single::from_bits(0x8000_0001);
    let one = Single::one();
    assert_eq!(combination_sign(1, huge, 1, minus_huge, 1, tiny), Some(1));
    assert_eq!(combination_sign(1, huge, 1, minus_huge, 1, minus_tiny), Some(-1));
    assert_eq!(combination_sign(1, huge, 1, minus_huge, 0, tiny), Some(0));
    assert_eq!(combination_sign(1, huge, -1, one, -255, tiny), Some(1));
    assert_eq!(combination_sign(-1, huge, 255, one, 255, tiny), Some(-1));
    assert_eq!(combination_sign(1, one, -1, one, -1, tiny), Some(-1));
    assert_eq!(combination_sign(1, tiny, 1, one, -1, one), Some(1));
    assert_eq!(combination_sign(0, huge, 0, one, 1, minus_tiny), Some(-1));
    assert_eq!(combination_sign(0, huge, 0, one, 0, tiny), Some(0));
}

#[test]
fn combination_sign_refuses_what_it_cannot_take() {
    let one = Single::one();
    let nan = Single::from_bits(f32::NAN.to_bits());
    let inf = Single::from_bits(f32::INFINITY.to_bits());
    assert_eq!(combination_sign(1, nan, 1, one, 1, one), None);
    assert_eq!(combination_sign(1, one, 0, inf, 1, one), None);
    assert_eq!(combination_sign(1, one, 1, one, 0, nan), None);
    assert_eq!(combination_sign(256, one, 1, one, 1, one), None);
    assert_eq!(combination_sign(1, one, -256, one, 1, one), None);
    assert_eq!(combination_sign(1, one, 1, one, i32::MIN, one), None);
    assert_eq!(combination_sign(255, one, -255, one, 0, one), Some(0));
}
