use atomic::Atomic;
use rand::{Rng, SeedableRng, XorShiftRng};
use spatial_channel::status::{BitAssigner, NotEnoughBits};
use spatial_channel::{Manhattan, SpatialChannel};
use std::sync::atomic::{AtomicU64, Ordering};
use std::sync::Arc;

const BATCHES: usize = 100;
const BATCH_SIZE: usize = 1000;

#[test]
fn test() {
    let seed = [0, 1, 2, 3, 4, 5, 6, 7, 8, 9, 10, 11, 12, 13, 14, 15];
    let mut rng = XorShiftRng::from_seed(seed);
    let focus = Arc::new(Atomic::new([
        rng.gen::<u64>() / 16,
        rng.gen::<u64>() / 16,
        rng.gen::<u64>() / 16,
    ]));
    let atomic = Atomic::new(0usize);
    let word = Arc::new(AtomicU64::new(0));
    let mut assigner = BitAssigner::new(word.clone());
    let mut spatial: SpatialChannel<Box<dyn Fn() + '_>, Manhattan<3>> =
        SpatialChannel::new(focus.clone(), Manhattan);
    spatial.assign_bits(&mut assigner).unwrap();
    for batch in 0..BATCHES {
        for _ in 0..BATCH_SIZE {
            let op = Box::new(|| {
                atomic.fetch_add(1, Ordering::SeqCst);
            });
            let pos = [
                rng.gen::<u64>() / 16,
                rng.gen::<u64>() / 16,
                rng.gen::<u64>() / 16,
            ];
            spatial.submit(op, pos);
        }
        while word.load(Ordering::SeqCst) != 0 {
            if let Some(op) = spatial.poll() {
                op();
            }
        }
        println!("did batch {}", batch);
    }
    assert_eq!(atomic.load(Ordering::Acquire), BATCHES * BATCH_SIZE);
}

#[test]
fn new_channel_is_idle() {
    let focus = Arc::new(Atomic::new([0u64, 0]));
    let channel: SpatialChannel<u32, Manhattan<2>> = SpatialChannel::new(focus, Manhattan);
    assert_eq!(channel.poll(), None);
    assert_eq!(channel.poll(), None);
}

#[test]
fn new_channel_follows_the_given_focus() {
    let focus = Arc::new(Atomic::new([50u64, 50]));
    let channel: SpatialChannel<u32, Manhattan<2>> =
        SpatialChannel::new(focus.clone(), Manhattan);
    assert!(Arc::ptr_eq(&channel.focus, &focus));
    channel.submit(1, [0, 0]);
    channel.submit(2, [49, 52]);
    assert_eq!(channel.poll(), Some(2));
}

#[test]
fn default_channel_starts_at_the_origin() {
    let channel: SpatialChannel<u32, Manhattan<3>> = SpatialChannel::default();
    assert_eq!(channel.focus.load(Ordering::SeqCst), [0, 0, 0]);
    assert_eq!(channel.poll(), None);
    channel.submit(1, [9, 9, 9]);
    channel.submit(2, [1, 0, 2]);
    channel.submit(3, [4, 4, 4]);
    assert_eq!(channel.poll(), Some(2));
    assert_eq!(channel.poll(), Some(3));
    assert_eq!(channel.poll(), Some(1));
    assert_eq!(channel.poll(), None);
}

#[test]
fn channel_conserves_tasks() {
    let channel: SpatialChannel<usize, Manhattan<2>> = SpatialChannel::default();
    let n = 25;
    for i in 0..n {
        channel.submit(i, [(i as u64 * 13) % 17, (i as u64 * 3) % 7]);
    }
    let mut seen = vec![false; n];
    for _ in 0..n {
        let task = channel.poll().expect("a task is pending");
        assert!(!seen[task]);
        seen[task] = true;
    }
    assert!(seen.iter().all(|s| *s));
    assert_eq!(channel.poll(), None);
}

#[test]
fn poll_follows_the_focus() {
    let a = [10u64, 10, 10];
    let b = [1000u64, 1000, 1000];
    let focus = Arc::new(Atomic::new([11u64, 9, 10]));
    let channel: SpatialChannel<&str, Manhattan<3>> =
        SpatialChannel::new(focus.clone(), Manhattan);
    channel.submit("at a", a);
    channel.submit("at b", b);
    assert_eq!(channel.poll(), Some("at a"));
    assert_eq!(channel.poll(), Some("at b"));

    channel.submit("at a", a);
    channel.submit("at b", b);
    focus.store([999, 1001, 1000], Ordering::SeqCst);
    assert_eq!(channel.poll(), Some("at b"));
    focus.store([11, 9, 10], Ordering::SeqCst);
    assert_eq!(channel.poll(), Some("at a"));
}

#[test]
fn channels_share_one_focus() {
    let focus = Arc::new(Atomic::new([0u64]));
    let left: SpatialChannel<u32, Manhattan<1>> = SpatialChannel::new(focus.clone(), Manhattan);
    let right: SpatialChannel<u32, Manhattan<1>> = SpatialChannel::new(focus.clone(), Manhattan);
    for channel in [&left, &right] {
        channel.submit(1, [10]);
        channel.submit(2, [90]);
    }
    focus.store([100], Ordering::SeqCst);
    assert_eq!(left.poll(), Some(2));
    assert_eq!(right.poll(), Some(2));
}

#[test]
fn readiness_bit_follows_the_queue() {
    let word = Arc::new(AtomicU64::new(0));
    let mut assigner = BitAssigner::new(word.clone());
    let mut channel: SpatialChannel<u32, Manhattan<2>> = SpatialChannel::default();
    assert_eq!(channel.assign_bits(&mut assigner), Ok(()));
    assert_eq!(word.load(Ordering::SeqCst), 0);
    channel.submit(1, [1, 1]);
    assert_eq!(word.load(Ordering::SeqCst), 1);
    channel.submit(2, [2, 2]);
    assert_eq!(word.load(Ordering::SeqCst), 1);
    assert_eq!(channel.poll(), Some(1));
    assert_eq!(word.load(Ordering::SeqCst), 1);
    assert_eq!(channel.poll(), Some(2));
    assert_eq!(word.load(Ordering::SeqCst), 0);
    assert_eq!(channel.poll(), None);
    assert_eq!(word.load(Ordering::SeqCst), 0);
}

#[test]
fn assigning_a_bit_publishes_pending_work() {
    let word = Arc::new(AtomicU64::new(0));
    let mut assigner = BitAssigner::new(word.clone());
    let mut idle: SpatialChannel<u32, Manhattan<1>> = SpatialChannel::default();
    let mut busy: SpatialChannel<u32, Manhattan<1>> = SpatialChannel::default();
    busy.submit(7, [3]);
    assert_eq!(idle.assign_bits(&mut assigner), Ok(()));
    assert_eq!(busy.assign_bits(&mut assigner), Ok(()));
    assert_eq!(word.load(Ordering::SeqCst), 0b10);
    assert_eq!(busy.poll(), Some(7));
    assert_eq!(word.load(Ordering::SeqCst), 0);
}

#[test]
fn setup_fails_when_the_status_word_is_full() {
    let word = Arc::new(AtomicU64::new(0));
    let mut assigner = BitAssigner::new(word.clone());
    let mut channels: Vec<SpatialChannel<u32, Manhattan<1>>> = Vec::new();
    for _ in 0..64 {
        let mut channel = SpatialChannel::default();
        assert_eq!(channel.assign_bits(&mut assigner), Ok(()));
        channels.push(channel);
    }
    channels[40].submit(1, [0]);
    let mut late: SpatialChannel<u32, Manhattan<1>> = SpatialChannel::default();
    late.submit(5, [0]);
    assert_eq!(late.assign_bits(&mut assigner), Err(NotEnoughBits));
    assert_eq!(word.load(Ordering::SeqCst), 1u64 << 40);
    assert_eq!(late.poll(), Some(5));
    assert_eq!(word.load(Ordering::SeqCst), 1u64 << 40);
    channels[0].submit(2, [0]);
    assert_eq!(word.load(Ordering::SeqCst), (1u64 << 40) | 1);
    assert_eq!(channels[40].poll(), Some(1));
    assert_eq!(word.load(Ordering::SeqCst), 1);
}
