use slime_mould::capture::{copy_layout, offer, Admission, CaptureError, CaptureJob, CopyLayout};
use slime_mould::params::StaticParams;

#[test]
fn layout_of_a_large_field() {
    let p = StaticParams::new(3200, 1800, 0).unwrap();
    assert_eq!(
        copy_layout(&p),
        CopyLayout {
            offset: 0,
            bytes_per_row: 12_800,
            rows_per_image: 1800,
            width: 3200,
            staging_bytes: 23_040_000,
        }
    );
}

#[test]
fn the_rows_fill_the_staging_buffer() {
    for (w, h) in [(1u32, 1u32), (16, 8), (640, 480), (3200, 1800), (0, 7), (7, 0)] {
        let p = StaticParams::new(w, h, 0).unwrap();
        let layout = copy_layout(&p);
        assert_eq!(
            layout.bytes_per_row as u64 * layout.rows_per_image as u64,
            layout.staging_bytes as u64
        );
        assert_eq!(layout.staging_bytes, w * h * 4);
    }
}

#[test]
fn a_whole_image_makes_a_job() {
    let p = StaticParams::new(4, 2, 0).unwrap();
    let bytes: Vec<u8> = (0..32).collect();
    let job = CaptureJob::new(&p, bytes.clone(), String::from("images/image-1.png")).unwrap();
    assert_eq!(job.bytes(), &bytes);
    assert_eq!(job.path(), "images/image-1.png");
    assert_eq!(job.width(), 4);
    assert_eq!(job.height(), 2);
}

#[test]
fn a_partial_image_is_turned_down() {
    let p = StaticParams::new(4, 2, 0).unwrap();
    assert_eq!(
        CaptureJob::new(&p, vec![0u8; 31], String::from("x.png")),
        Err(CaptureError::SizeMismatch { expected: 32, actual: 31 })
    );
    assert_eq!(
        CaptureJob::new(&p, vec![0u8; 33], String::from("x.png")),
        Err(CaptureError::SizeMismatch { expected: 32, actual: 33 })
    );
    assert_eq!(
        CaptureJob::new(&p, Vec::new(), String::from("x.png")),
        Err(CaptureError::SizeMismatch { expected: 32, actual: 0 })
    );
}

#[test]
fn the_queue_takes_jobs_until_it_is_full() {
    assert_eq!(offer(128, 0), Admission::HandOff);
    assert_eq!(offer(128, 127), Admission::HandOff);
    assert_eq!(offer(128, 128), Admission::Wait);
    assert_eq!(offer(128, 500), Admission::Wait);
    assert_eq!(offer(0, 0), Admission::Wait);
}

#[test]
fn a_burst_larger_than_the_queue_loses_no_job() {
    // A queue of 4 slots whose workers finish one job for every three offers.
    let bound = 4usize;
    let mut queued = 0usize;
    let mut finished = 0usize;
    let mut waits = 0usize;
    let jobs = 50usize;
    let mut offered = 0usize;
    let mut rounds = 0usize;
    while offered < jobs {
        rounds += 1;
        match offer(bound, queued) {
            Admission::HandOff => {
                queued += 1;
                offered += 1;
            }
            Admission::Wait => waits += 1,
        }
        if rounds % 3 == 0 && queued > 0 {
            queued -= 1;
            finished += 1;
        }
        assert!(queued <= bound);
    }
    finished += queued;
    assert_eq!(finished, jobs);
    assert!(waits > 0);
}
