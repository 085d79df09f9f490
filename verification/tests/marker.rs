use cli_harness::marker::{MarkerWatch, WaitStep};

fn feed(watch: &mut MarkerWatch, stream: &[u8], chunk: usize) -> Option<usize> {
    let mut at = 0;
    while at < stream.len() {
        let end = std::cmp::min(at + chunk, stream.len());
        let step = watch.step(&stream[at..end]);
        if step.done {
            return Some(end);
        }
        at = end;
    }
    None
}

#[test]
fn read_len_is_marker_len() {
    let watch = MarkerWatch::new(b"Hello, world!");
    assert_eq!(watch.read_len(), 13);
}

#[test]
fn finds_marker_in_one_read() {
    let mut watch = MarkerWatch::new(b"Hello");
    let step = watch.step(b"Hello");
    assert_eq!(step, WaitStep { pause: false, done: true });
}

#[test]
fn finds_marker_across_reads() {
    let mut watch = MarkerWatch::new(b"Hello, world!");
    assert!(!watch.step(b"xxHello, w").done);
    assert!(watch.step(b"orld!\n").done);
}

#[test]
fn finds_marker_fed_byte_by_byte() {
    let stream = b"sleeping...\nHello, world!\n";
    let mut watch = MarkerWatch::new(b"Hello, world!");
    assert_eq!(feed(&mut watch, stream, 1), Some(25));
}

#[test]
fn stops_at_the_read_that_completes_the_marker() {
    let stream = b"abcdefgh marker tail";
    for chunk in 1..=6 {
        let mut watch = MarkerWatch::new(b"marker");
        let stop = feed(&mut watch, stream, chunk).expect("marker is found");
        assert!(stop >= 15, "chunk {chunk} stopped early at {stop}");
        assert!(stop < 15 + chunk, "chunk {chunk} stopped late at {stop}");
    }
}

#[test]
fn empty_read_asks_for_a_pause() {
    let mut watch = MarkerWatch::new(b"ok");
    assert_eq!(watch.step(b""), WaitStep { pause: true, done: false });
    assert_eq!(watch.step(b"o"), WaitStep { pause: false, done: false });
    assert_eq!(watch.step(b""), WaitStep { pause: true, done: false });
    assert_eq!(watch.step(b"k"), WaitStep { pause: false, done: true });
}

#[test]
fn absent_marker_is_never_found() {
    let mut watch = MarkerWatch::new(b"needle");
    assert_eq!(feed(&mut watch, b"a haystack without it, nee dle", 4), None);
}

#[test]
fn zero_marker_matches_the_initial_padding() {
    let mut watch = MarkerWatch::new(&[0u8, 0u8]);
    assert_eq!(watch.step(b""), WaitStep { pause: true, done: true });
}

#[test]
fn old_bytes_slide_out_of_the_window() {
    let mut watch = MarkerWatch::new(b"ab");
    assert!(watch.step(b"ab").done);
    assert!(watch.step(b"xy").done);
    assert!(!watch.step(b"zz").done);
}
