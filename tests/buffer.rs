use apollo::buffer::{Buffer, BufferError};

fn stereo(n: usize) -> Buffer<f32> {
    let mut buffer = Buffer::new();
    let left: Vec<f32> = (0..n).map(|i| i as f32).collect();
    let right: Vec<f32> = (0..n).map(|i| -(i as f32)).collect();
    assert!(buffer.bind(vec![left, right]).is_ok());
    buffer
}

#[test]
fn new_buffer_is_unbound() {
    let buffer: Buffer<f32> = Buffer::new();
    assert_eq!(buffer.channel_count(), 0);
    assert_eq!(buffer.sample_count(), 0);
    assert_eq!(buffer.channel(0).err(), Some(BufferError::IndexOutOfRange));
}

#[test]
fn bind_sets_shape() {
    let buffer = stereo(4);
    assert_eq!(buffer.channel_count(), 2);
    assert_eq!(buffer.sample_count(), 4);
    assert_eq!(buffer.channel(1).unwrap(), &[0.0, -1.0, -2.0, -3.0][..]);
}

#[test]
fn bind_hands_back_previous_storage() {
    let mut buffer = stereo(2);
    let previous = buffer.bind(vec![vec![7.0f32; 3]]).unwrap();
    assert_eq!(previous, vec![vec![0.0, 1.0], vec![0.0, -1.0]]);
    assert_eq!(buffer.channel_count(), 1);
    assert_eq!(buffer.sample_count(), 3);
}

#[test]
fn bind_unequal_lengths_is_shape_mismatch_and_keeps_binding() {
    let mut buffer = stereo(4);
    let r = buffer.bind(vec![vec![0.0f32; 4], vec![0.0f32; 3]]);
    assert_eq!(r.err(), Some(BufferError::ShapeMismatch));
    assert_eq!(buffer.channel_count(), 2);
    assert_eq!(buffer.sample_count(), 4);
    assert_eq!(buffer.channel(0).unwrap(), &[0.0, 1.0, 2.0, 3.0][..]);
}

#[test]
fn bind_no_channels_unbinds() {
    let mut buffer = stereo(4);
    assert!(buffer.bind(Vec::new()).is_ok());
    assert_eq!(buffer.channel_count(), 0);
    assert_eq!(buffer.sample_count(), 0);
}

#[test]
fn unbind_returns_storage_and_empties() {
    let mut buffer = stereo(1);
    let storage = buffer.unbind();
    assert_eq!(storage, vec![vec![0.0], vec![0.0]]);
    assert_eq!(buffer.channel_count(), 0);
    assert_eq!(buffer.sample_count(), 0);
}

#[test]
fn channel_out_of_range() {
    let mut buffer = stereo(4);
    assert_eq!(buffer.channel(2).err(), Some(BufferError::IndexOutOfRange));
    assert_eq!(buffer.channel_mut(2).err(), Some(BufferError::IndexOutOfRange));
}

#[test]
fn channel_mut_writes_through() {
    let mut buffer = stereo(3);
    buffer.channel_mut(0).unwrap()[2] = 9.5;
    assert_eq!(buffer.channel(0).unwrap(), &[0.0, 1.0, 9.5][..]);
    assert_eq!(buffer.channel(1).unwrap(), &[0.0, -1.0, -2.0][..]);
}

#[test]
fn sample_access_is_bounds_checked() {
    let mut buffer = stereo(3);
    assert_eq!(buffer.sample(1, 2), Ok(&-2.0));
    assert_eq!(buffer.sample(1, 3).err(), Some(BufferError::IndexOutOfRange));
    assert_eq!(buffer.sample(2, 0).err(), Some(BufferError::IndexOutOfRange));
    *buffer.sample_mut(0, 1).unwrap() = 4.0;
    assert_eq!(buffer.sample(0, 1), Ok(&4.0));
    assert_eq!(buffer.sample_mut(0, 3).err(), Some(BufferError::IndexOutOfRange));
}

#[test]
fn iter_samples_visits_every_index_in_order() {
    let mut buffer = stereo(3);
    let mut samples = buffer.iter_samples();
    assert_eq!(samples.size_hint(), (3, Some(3)));
    let mut seen = Vec::new();
    while let Some(view) = samples.next() {
        seen.push(view.sample_index());
        let mut channels = view.into_iter(&buffer);
        assert_eq!(channels.size_hint(), (2, Some(2)));
        while let Some(x) = channels.next(&mut buffer) {
            *x += 10.0;
        }
        assert_eq!(channels.size_hint(), (0, Some(0)));
    }
    assert_eq!(seen, vec![0, 1, 2]);
    assert_eq!(samples.size_hint(), (0, Some(0)));
    assert!(samples.next().is_none());
    assert_eq!(buffer.channel(0).unwrap(), &[10.0, 11.0, 12.0][..]);
    assert_eq!(buffer.channel(1).unwrap(), &[10.0, 9.0, 8.0][..]);
}

#[test]
fn channel_walk_stops_when_buffer_shrinks() {
    let mut buffer = stereo(3);
    let mut samples = buffer.iter_samples();
    samples.next();
    samples.next();
    let view = samples.next().unwrap();
    let mut channels = view.into_iter(&buffer);
    buffer.bind(vec![vec![0.0f32; 1], vec![0.0f32; 1]]).unwrap();
    assert!(channels.next(&mut buffer).is_none());
}

#[test]
fn iter_samples_on_unbound_buffer_is_empty() {
    let buffer: Buffer<f32> = Buffer::new();
    let mut samples = buffer.iter_samples();
    assert_eq!(samples.size_hint(), (0, Some(0)));
    assert!(samples.next().is_none());
}
