use pitch_tracker::WindowBuffer;

fn push_all(buf: &mut WindowBuffer<i32>, chunks: &[Vec<i32>]) -> Vec<Vec<i32>> {
    let mut out = Vec::new();
    for c in chunks {
        out.extend(buf.push(c));
    }
    out
}

#[test]
fn windows_concatenate_to_pushed_samples() {
    let samples: Vec<i32> = (0..24).collect();
    let splits: Vec<Vec<Vec<i32>>> = vec![
        vec![samples.clone()],
        vec![samples[..1].to_vec(), samples[1..17].to_vec(), samples[17..].to_vec()],
        samples.iter().map(|s| vec![*s]).collect(),
        vec![vec![], samples[..9].to_vec(), vec![], samples[9..].to_vec()],
    ];
    for chunks in splits {
        let mut buf = WindowBuffer::new(8);
        let windows = push_all(&mut buf, &chunks);
        assert_eq!(windows.len(), 3);
        assert!(windows.iter().all(|w| w.len() == 8));
        let flat: Vec<i32> = windows.concat();
        assert_eq!(flat, samples);
        assert_eq!(buf.pending(), 0);
    }
}

#[test]
fn remainder_waits_for_next_push() {
    let mut buf = WindowBuffer::new(4);
    assert!(buf.push(&[1, 2, 3]).is_empty());
    assert_eq!(buf.pending(), 3);
    let w = buf.push(&[4, 5]);
    assert_eq!(w, vec![vec![1, 2, 3, 4]]);
    assert_eq!(buf.pending(), 1);
    let w = buf.push(&[6, 7, 8, 9, 10, 11, 12, 13]);
    assert_eq!(w, vec![vec![5, 6, 7, 8], vec![9, 10, 11, 12]]);
    assert_eq!(buf.pending(), 1);
    assert_eq!(buf.window_size(), 4);
}

#[test]
fn empty_chunk_produces_nothing() {
    let mut buf: WindowBuffer<f32> = WindowBuffer::new(1024);
    assert!(buf.push(&[]).is_empty());
    assert_eq!(buf.pending(), 0);
}

#[test]
fn oversized_chunk_yields_many_windows() {
    let mut buf: WindowBuffer<f32> = WindowBuffer::new(1024);
    let chunk: Vec<f32> = (0..5000).map(|i| i as f32).collect();
    let w = buf.push(&chunk);
    assert_eq!(w.len(), 4);
    assert_eq!(w[3][0], 3072.0);
    assert_eq!(w[3][1023], 4095.0);
    assert_eq!(buf.pending(), 5000 - 4096);
}
