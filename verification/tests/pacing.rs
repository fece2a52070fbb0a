use frame_pacing::average::{update_running_average, AVG_CAP, SCALE};
use frame_pacing::config::{CodecType, DecoderInitConfig, MediacodecDataType};
use frame_pacing::dequeuer::VideoDecoderDequeuer;
use frame_pacing::frames::{DequeuedFrame, QueuedImage};
use std::collections::VecDeque;

fn expected_avg(avg: u128, len: u128, weight: u128) -> u128 {
    (avg * weight + len * (SCALE as u128 - weight) * SCALE as u128) / SCALE as u128
}

fn config(weight: u64, max: u64) -> DecoderInitConfig {
    DecoderInitConfig {
        codec: CodecType::H264,
        options: Vec::new(),
        buffering_history_weight: weight,
        max_buffering_frames: max,
    }
}

fn fresh_queue(timestamps: &[u64]) -> VecDeque<QueuedImage> {
    let mut q = VecDeque::new();
    for (i, &ts) in timestamps.iter().enumerate() {
        q.push_back(QueuedImage {
            timestamp_ns: ts,
            image: i as u64 + 1,
            in_use: false,
        });
    }
    q
}

#[test]
fn average_update_matches_formula() {
    // avg' = (avg * w + len * (SCALE - w) * SCALE) / SCALE, exactly.
    assert_eq!(update_running_average(0, 1, 900_000), 100_000);
    assert_eq!(update_running_average(100_000, 2, 900_000), 290_000);
    assert_eq!(update_running_average(290_000, 3, 900_000), 561_000);
    assert_eq!(update_running_average(0, 4, 500_000), 2_000_000);
    // weight 0: the average is the scaled sample.
    assert_eq!(update_running_average(7_000_000, 3, 0), 3_000_000);
    // weight SCALE: the sample is ignored.
    assert_eq!(update_running_average(7_000_000, 3, SCALE), 7_000_000);
    // stays within the admissible range even at the extremes.
    assert!(update_running_average(AVG_CAP, usize::MAX, 999_999) <= AVG_CAP);
}

#[test]
fn average_sequence_deterministic_and_drop_after_exceeding() {
    // Queue length sequence 0,1,2,3,4,5 then constant 5, with weight 0.9 and
    // a depth limit of 3: the average follows the formula deterministically,
    // and the first call whose average exceeds 3 drops the head.
    let lens: [usize; 12] = [0, 1, 2, 3, 4, 5, 5, 5, 5, 5, 5, 5];
    let mut avg: u128 = 0;
    let mut exceeded = false;
    for &len in lens.iter() {
        let timestamps: Vec<u64> = (0..len as u64).map(|i| (i + 1) * 10).collect();
        let mut d = VideoDecoderDequeuer {
            image_queue: fresh_queue(&timestamps),
            config: config(900_000, 3),
            buffering_running_average: avg,
        };
        let r = d.dequeue_frame();
        avg = expected_avg(avg, len as u128, 900_000);
        assert_eq!(d.buffering_running_average, avg);
        if avg > 3_000_000 {
            exceeded = true;
            // head dropped before returning: the returned frame is the
            // second of the fresh queue.
            assert_eq!(r.unwrap().timestamp_ns, 20);
            assert_eq!(d.image_queue.len(), len - 1);
        } else if len > 0 {
            assert_eq!(r.unwrap().timestamp_ns, 10);
            assert_eq!(d.image_queue.len(), len);
        } else {
            assert!(r.is_none());
        }
    }
    assert!(exceeded);
}

#[test]
fn same_frame_until_consumed() {
    // Two calls in a row: the first hands out the head and leaves it at the
    // head marked in use; the head is only retired by the next call, which
    // then returns the following frame.
    let mut d = VideoDecoderDequeuer {
        image_queue: fresh_queue(&[100, 200]),
        config: config(0, 3),
        buffering_running_average: 0,
    };
    let first = d.dequeue_frame().unwrap();
    assert_eq!(first, DequeuedFrame { timestamp_ns: 100, image: 1 });
    assert_eq!(d.image_queue[0].timestamp_ns, 100);
    assert!(d.image_queue[0].in_use);
    assert_eq!(d.image_queue.len(), 2);

    let second = d.dequeue_frame().unwrap();
    assert_eq!(second, DequeuedFrame { timestamp_ns: 200, image: 2 });
    assert_eq!(d.image_queue.len(), 1);
}

#[test]
fn underflow_returns_empty_and_only_decays_average() {
    let mut d = VideoDecoderDequeuer {
        image_queue: VecDeque::new(),
        config: config(500_000, 2),
        buffering_running_average: 1_000_000,
    };
    assert!(d.dequeue_frame().is_none());
    assert!(d.image_queue.is_empty());
    // the average advanced exactly as one empty-queue observation advances
    // any average: the same as a fresh dequeuer holding the same average.
    let mut baseline = VideoDecoderDequeuer {
        image_queue: VecDeque::new(),
        config: config(500_000, 2),
        buffering_running_average: 1_000_000,
    };
    baseline.dequeue_frame();
    assert_eq!(d.buffering_running_average, baseline.buffering_running_average);
    assert_eq!(d.buffering_running_average, 500_000);
}

#[test]
fn congestion_threshold_is_strict() {
    // weight 0.5, depth 2, four frames: the average lands exactly on the
    // threshold and the head is not dropped.
    let mut d = VideoDecoderDequeuer {
        image_queue: fresh_queue(&[100, 200, 300, 400]),
        config: config(500_000, 2),
        buffering_running_average: 0,
    };
    let r = d.dequeue_frame().unwrap();
    assert_eq!(d.buffering_running_average, 2_000_000);
    assert_eq!(r.timestamp_ns, 100);
    assert_eq!(d.image_queue.len(), 4);
}

#[test]
fn burst_above_depth_drops_oldest_frame() {
    // weight 0.5, depth 2, five frames 100..500ns with no intervening
    // dequeues: one call pushes the average past the depth, drops the
    // oldest frame and returns the next.
    let mut d = VideoDecoderDequeuer {
        image_queue: fresh_queue(&[100, 200, 300, 400, 500]),
        config: config(500_000, 2),
        buffering_running_average: 0,
    };
    let r = d.dequeue_frame().unwrap();
    assert_eq!(d.buffering_running_average, 2_500_000);
    assert_eq!(r.timestamp_ns, 200);
    assert_eq!(d.image_queue.len(), 4);
    assert!(d.image_queue[0].in_use);
    assert_eq!(d.image_queue[0].timestamp_ns, 200);
}

#[test]
fn consumed_head_and_congestion_drop_retire_two_frames_in_order() {
    // The head was handed out earlier (in use) and the queue is congested:
    // one call retires the consumed head, then drops the next frame, and
    // hands out the third — always from the front.
    let mut queue = fresh_queue(&[100, 200, 300, 400, 500, 600]);
    queue[0].in_use = true;
    let mut d = VideoDecoderDequeuer {
        image_queue: queue,
        config: config(0, 2),
        buffering_running_average: 0,
    };
    let r = d.dequeue_frame().unwrap();
    // after retiring the head, five frames remain; weight 0 makes the
    // average the scaled length, well past the depth of 2.
    assert_eq!(d.buffering_running_average, 5_000_000);
    assert_eq!(r.timestamp_ns, 300);
    assert_eq!(d.image_queue.len(), 4);
    assert_eq!(d.image_queue[1].timestamp_ns, 400);
}

#[test]
fn dequeued_frame_carries_image_handle() {
    let mut d = VideoDecoderDequeuer {
        image_queue: fresh_queue(&[77]),
        config: config(0, 10),
        buffering_running_average: 0,
    };
    let r = d.dequeue_frame().unwrap();
    assert_eq!(r.image, 1);
    assert_eq!(r.timestamp_ns, 77);
}

#[test]
fn option_values_clone_exactly() {
    let options = vec![
        ("vendor.low-latency".to_string(), MediacodecDataType::Int32(1)),
        ("operating-rate".to_string(), MediacodecDataType::Int64(240)),
        ("priority-hint".to_string(), MediacodecDataType::Float32Bits(1.25f32.to_bits())),
        ("profile-name".to_string(), MediacodecDataType::Text("main".to_string())),
    ];
    let cloned = frame_pacing::config::clone_options(&options);
    assert_eq!(cloned, options);
    assert_eq!(
        f32::from_bits(match &cloned[2].1 {
            MediacodecDataType::Float32Bits(b) => *b,
            _ => unreachable!(),
        }),
        1.25f32
    );
}
