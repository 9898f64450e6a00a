use ancs_bridge::serializer::{plan_write, write_completion, IoFailure, SendError, SendQueue,
    WriteMode};

#[test]
fn write_mode_preference() {
    assert_eq!(plan_write(true, true), Ok(WriteMode::Acknowledged));
    assert_eq!(plan_write(true, false), Ok(WriteMode::Acknowledged));
    assert_eq!(plan_write(false, true), Ok(WriteMode::Unacknowledged));
    assert_eq!(plan_write(false, false), Err(SendError::Io(IoFailure::Unwritable)));
}

#[test]
fn completion_mirrors_write_outcome() {
    assert_eq!(write_completion(true), Ok(()));
    assert_eq!(write_completion(false), Err(SendError::Io(IoFailure::WriteFailed)));
}

#[test]
fn enqueue_hands_out_fresh_tickets_in_order() {
    let mut q = SendQueue::new();
    assert_eq!(q.enqueue(vec![1]), Ok(0));
    assert_eq!(q.enqueue(vec![2]), Ok(1));
    assert_eq!(q.enqueue(vec![3]), Ok(2));
    assert_eq!(q.entries.len(), 3);
}

#[test]
fn closed_queue_refuses_handoff() {
    let mut q = SendQueue::new();
    assert_eq!(q.enqueue(vec![1]), Ok(0));
    q.close();
    assert_eq!(q.enqueue(vec![2]), Err(SendError::Io(IoFailure::QueueClosed)));
    // what was queued before the close stays to be drained
    assert_eq!(q.entries.len(), 1);
}

#[test]
fn dequeue_is_fifo() {
    let mut q = SendQueue::new();
    let _ = q.enqueue(vec![0xAA]);
    let _ = q.enqueue(vec![0xBB]);
    let first = q.dequeue().unwrap();
    assert_eq!(first.ticket, 0);
    assert_eq!(first.payload, vec![0xAA]);
    let second = q.dequeue().unwrap();
    assert_eq!(second.ticket, 1);
    assert_eq!(second.payload, vec![0xBB]);
    assert!(q.dequeue().is_none());
}

#[test]
fn next_transmission_plans_the_front_entry() {
    let mut q = SendQueue::new();
    let _ = q.enqueue(vec![9, 9]);
    let (ticket, outcome) = q.next_transmission(false, true).unwrap();
    assert_eq!(ticket, 0);
    let cmd = outcome.unwrap();
    assert_eq!(cmd.payload, vec![9, 9]);
    assert_eq!(cmd.mode, WriteMode::Unacknowledged);
    assert!(q.next_transmission(false, true).is_none());
}

#[test]
fn all_handoffs_serviced_once_in_order() {
    // several producers hand payloads off; the drain services every entry
    // exactly once, in hand-off order, with no interleaving of payloads
    let mut q = SendQueue::new();
    let payloads: Vec<Vec<u8>> = (0u8..5).map(|i| vec![i, i, i]).collect();
    let mut tickets = Vec::new();
    for p in &payloads {
        tickets.push(q.enqueue(p.clone()).unwrap());
    }
    let completions = q.service_all(true, false);
    assert_eq!(completions.len(), payloads.len());
    for (k, (ticket, outcome)) in completions.iter().enumerate() {
        assert_eq!(*ticket, tickets[k]);
        let cmd = outcome.as_ref().unwrap();
        assert_eq!(cmd.payload, payloads[k]);
        assert_eq!(cmd.mode, WriteMode::Acknowledged);
    }
    assert!(q.entries.is_empty());
}

#[test]
fn unwritable_characteristic_fails_every_entry_without_stopping() {
    let mut q = SendQueue::new();
    let _ = q.enqueue(vec![1]);
    let _ = q.enqueue(vec![2]);
    let completions = q.service_all(false, false);
    assert_eq!(completions.len(), 2);
    for (_, outcome) in &completions {
        assert!(matches!(outcome, Err(SendError::Io(IoFailure::Unwritable))));
    }
}
