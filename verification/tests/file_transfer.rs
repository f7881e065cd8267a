use deploy_flow::file_transfer::{FileTransfer, CHUNK_SIZE};

#[test]
fn empty_buffer_has_no_chunk() {
    let transfer = FileTransfer::new(0);
    assert_eq!(transfer.next_chunk(), None);
    assert!(transfer.is_complete());
}

#[test]
fn chunk_deltas_sum_to_buffer_size() {
    let size: usize = 3 * CHUNK_SIZE + 17;
    let mut transfer = FileTransfer::new(size);
    let mut reported: Vec<usize> = Vec::new();
    let mut previous: usize = 0;
    let mut sum: usize = 0;
    while let Some((start, end)) = transfer.next_chunk() {
        assert_eq!(start, previous);
        assert!(end - start <= CHUNK_SIZE);
        let event = transfer.chunk_written();
        assert_eq!(event.total_size, size);
        assert_eq!(event.processed_size, end);
        sum += event.processed_size - previous;
        previous = event.processed_size;
        reported.push(event.processed_size);
    }
    assert_eq!(reported, vec![8092, 16184, 24276, 24293]);
    assert_eq!(sum, size);
    assert_eq!(previous, size);
    assert!(transfer.is_complete());
}
