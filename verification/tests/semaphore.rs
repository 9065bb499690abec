use concurrency::semaphore::{Permits, Semaphore};

#[test]
fn semaphore_admits_up_to_its_limit_in_turn() {
    const SEM_NUM: isize = 4;
    const NUM_LOOP: usize = 1000;
    let sem = Semaphore::new(SEM_NUM);
    let mut cnt: isize = 0;
    for _ in 0..NUM_LOOP {
        for _ in 0..SEM_NUM {
            sem.wait();
            cnt += 1;
            assert!(cnt <= SEM_NUM);
        }
        for _ in 0..SEM_NUM {
            cnt -= 1;
            sem.post();
        }
    }
    assert_eq!(cnt, 0);
}

#[test]
fn permits_count_holders_up_to_the_limit() {
    let mut p = Permits::new();
    assert_eq!(p.holders(), 0);
    assert!(!p.is_full(2));
    p.acquire(2);
    p.acquire(2);
    assert_eq!(p.holders(), 2);
    assert!(p.is_full(2));
    assert!(p.release(2));
    assert_eq!(p.holders(), 1);
    assert!(!p.is_full(2));
}

#[test]
fn release_without_acquire_goes_negative_and_wakes() {
    let mut p = Permits::new();
    assert!(p.release(1));
    assert_eq!(p.holders(), -1);
    p.acquire(1);
    p.acquire(1);
    assert_eq!(p.holders(), 1);
    assert!(p.is_full(1));
}

#[test]
fn release_over_a_negative_limit_does_not_wake() {
    let mut p = Permits::new();
    assert!(p.is_full(-3));
    assert!(!p.release(-3));
    assert_eq!(p.holders(), -1);
}

#[test]
fn release_keeps_counting_below_zero() {
    let mut p = Permits::new();
    for _ in 0..3 {
        p.release(isize::MIN);
    }
    assert_eq!(p.holders(), -3);
}

#[test]
fn zero_limit_semaphore_is_full_from_the_start() {
    let p = Permits::new();
    assert!(p.is_full(0));
}

#[test]
fn semaphore_wait_then_post_single_thread() {
    let sem = Semaphore::new(1);
    sem.wait();
    sem.post();
    sem.wait();
    sem.post();
}

