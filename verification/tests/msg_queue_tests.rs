use ccargo::msg_queue::MsgQueue;

#[test]
fn ordered_output_over_interleaved_pushes() {
    let mut q = MsgQueue::new(3);
    let w0 = q.writer();
    let w1 = q.writer();
    let w2 = q.writer();
    // interleave pushes from three writers
    q.push(w1, b"BBB");
    q.push(w0, b"aa");
    q.push(w2, b"cc");
    q.push(w1, b"bb");
    q.push(w0, b"AA");
    // finishing out of order still yields slot order
    q.finish(w1);
    q.finish(w0);
    q.push(w2, b"CC");
    q.finish(w2);
    assert_eq!(b"aaAABBBbbccCC".to_vec(), q.output());
}

#[test]
fn current_slot_streams_immediately() {
    let mut q = MsgQueue::new(2);
    let w0 = q.writer();
    let _w1 = q.writer();
    q.push(w0, b"live");
    // the first writer's bytes are already in the sink before any finish
    q.finish(w0);
    assert_eq!(b"live".to_vec(), q.output());
}
