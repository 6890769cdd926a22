use audrey::frame::assemble_frame;

#[test]
fn complete_frame() {
    let reads: Vec<Option<Result<i16, &str>>> = vec![Some(Ok(1)), Some(Ok(2)), Some(Ok(3))];
    assert_eq!(assemble_frame(reads), Some(Ok(vec![1, 2, 3])));
}

#[test]
fn empty_frame() {
    let reads: Vec<Option<Result<i16, &str>>> = vec![];
    assert_eq!(assemble_frame(reads), Some(Ok(vec![])));
}

#[test]
fn stream_ends_mid_frame() {
    let reads: Vec<Option<Result<i16, &str>>> = vec![Some(Ok(1)), None];
    assert_eq!(assemble_frame(reads), None);
}

#[test]
fn failed_read_gives_error() {
    let reads: Vec<Option<Result<i16, &str>>> = vec![Some(Ok(1)), Some(Err("bad")), Some(Ok(3))];
    assert_eq!(assemble_frame(reads), Some(Err("bad")));
}

#[test]
fn last_shortfall_decides() {
    let reads: Vec<Option<Result<i16, &str>>> = vec![Some(Err("first")), None];
    assert_eq!(assemble_frame(reads), None);
    let reads: Vec<Option<Result<i16, &str>>> = vec![None, Some(Err("second"))];
    assert_eq!(assemble_frame(reads), Some(Err("second")));
    let reads: Vec<Option<Result<i16, &str>>> =
        vec![Some(Err("a")), Some(Ok(1)), Some(Err("b")), Some(Ok(2))];
    assert_eq!(assemble_frame(reads), Some(Err("b")));
}

#[test]
fn whole_stream_of_frames() {
    let samples = [1i16, 2, 3, 4, 5];
    let channels = 2;
    let mut next = 0;
    let mut frames = Vec::new();
    loop {
        let reads: Vec<Option<Result<i16, &str>>> = (0..channels)
            .map(|_| {
                let read = samples.get(next).map(|s| Ok(*s));
                next += 1;
                read
            })
            .collect();
        match assemble_frame(reads) {
            Some(Ok(frame)) => frames.push(frame),
            other => {
                assert_eq!(other, None);
                break;
            }
        }
    }
    assert_eq!(frames, vec![vec![1, 2], vec![3, 4]]);
}
