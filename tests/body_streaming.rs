use bytes::Bytes;
use storage_client::body_stream::BodyStream;
use storage_client::error::StorageError;

fn chunks(n: usize) -> Vec<Bytes> {
    (0..n).map(|i| Bytes::from(vec![i as u8; i + 1])).collect()
}

#[test]
fn n_chunks_yield_n_items_then_end() {
    let body = chunks(4);
    let mut stream = BodyStream::new();
    let mut items = Vec::new();
    for c in body.iter() {
        items.push(stream.next_item(Some(Ok(c.clone()))));
    }
    assert_eq!(stream.next_item(None), None);
    assert!(stream.is_finished());
    assert_eq!(stream.next_item(Some(Ok(Bytes::from_static(b"late")))), None);
    assert_eq!(items.len(), 4);
    for (item, c) in items.into_iter().zip(body.into_iter()) {
        assert_eq!(item, Some(Ok(c)));
    }
}

#[test]
fn empty_body_ends_at_once() {
    let mut stream = BodyStream::new();
    assert!(!stream.is_finished());
    assert_eq!(stream.next_item(None), None);
    assert!(stream.is_finished());
}

#[test]
fn failure_on_chunk_k_yields_k_minus_one_items_then_error() {
    let body = chunks(5);
    let k = 3;
    let mut stream = BodyStream::new();
    let mut yielded = Vec::new();
    for c in body.iter().take(k - 1) {
        yielded.push(stream.next_item(Some(Ok(c.clone()))));
    }
    let failed = stream.next_item(Some(Err("connection reset".to_string())));
    assert_eq!(
        failed,
        Some(Err(StorageError::HttpTransportError { details: "connection reset".to_string() }))
    );
    for c in body.iter().skip(k) {
        assert_eq!(stream.next_item(Some(Ok(c.clone()))), None);
    }
    assert_eq!(stream.next_item(None), None);
    assert_eq!(yielded.len(), k - 1);
    for (item, c) in yielded.into_iter().zip(body.into_iter()) {
        assert_eq!(item, Some(Ok(c)));
    }
}
