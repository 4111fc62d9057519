use uring_fixed::buf::FixedBuf;
use uring_fixed::detached::Detached;
use uring_fixed::fd::{Descriptor, SharedFd};
use uring_fixed::op::{Op, OsError, Poll};
use uring_fixed::queue::SubmissionQueue;
use uring_fixed::read_fixed::ReadFixed;
use uring_fixed::write_fixed::WriteFixed;

fn read_in_flight(
    desc: &mut Descriptor,
    caller: &SharedFd,
    queue: &mut SubmissionQueue,
    index: u16,
) -> Op<ReadFixed> {
    let fd = desc.clone_handle(caller).unwrap();
    let buf = FixedBuf::new(index, 0x1000 * (index as usize + 1), 256, 0).unwrap();
    Op::<ReadFixed>::read_fixed_at(fd, buf, 0, queue).unwrap()
}

#[test]
fn abandoned_read_is_kept_until_its_completion() {
    let (mut desc, caller) = Descriptor::open(3);
    let mut queue = SubmissionQueue::new(4);
    let op = read_in_flight(&mut desc, &caller, &mut queue, 0);
    let slot = op.slot();

    let mut table: Detached<ReadFixed> = Detached::new();
    assert_eq!(table.len(), 0);
    assert!(table.adopt(op).is_none());
    assert_eq!(table.len(), 1);

    assert!(!desc.drop_handle(caller));
    assert!(desc.is_open());

    assert!(table.complete(slot + 1, 5).is_none());
    assert_eq!(table.len(), 1);

    let mut back = table.complete(slot, 40).unwrap();
    assert_eq!(table.len(), 0);
    assert_eq!(back.slot(), slot);
    assert!(back.is_completed());
    let out = match back.poll_read_fixed() {
        Poll::Ready(out) => out,
        Poll::Pending => panic!("the completion was delivered"),
    };
    assert_eq!(out.result, Ok(40));
    assert_eq!(out.buf.bytes_init(), 40);
    assert_eq!(out.buf.stable_addr(), 0x1000);
    assert!(desc.drop_handle(out.fd));
    assert!(!desc.is_open());

    assert!(table.complete(slot, 40).is_none());
}

#[test]
fn completed_handle_is_not_kept() {
    let (_desc, fd) = Descriptor::open(3);
    let mut queue = SubmissionQueue::new(4);
    let buf = FixedBuf::new(0, 64, 32, 32).unwrap();
    let mut op = Op::<WriteFixed>::write_fixed_at(fd, buf, 0, &mut queue).unwrap();
    assert!(op.complete(op.slot(), -28));

    let mut table: Detached<WriteFixed> = Detached::new();
    let mut back = table.adopt(op).unwrap();
    assert_eq!(table.len(), 0);
    match back.poll_write_fixed() {
        Poll::Ready(out) => {
            assert_eq!(out.result, Err(OsError { code: 28 }));
            assert_eq!(out.buf.bytes_init(), 32);
        }
        Poll::Pending => panic!("the completion was delivered"),
    }

    let done = table.adopt(back).unwrap();
    assert!(done.is_done());
    assert_eq!(table.len(), 0);
}

#[test]
fn completion_goes_to_the_handle_of_its_slot() {
    let (mut desc, caller) = Descriptor::open(3);
    let mut queue = SubmissionQueue::new(4);
    let a = read_in_flight(&mut desc, &caller, &mut queue, 0);
    let b = read_in_flight(&mut desc, &caller, &mut queue, 1);
    let c = read_in_flight(&mut desc, &caller, &mut queue, 2);
    let (slot_a, slot_b, slot_c) = (a.slot(), b.slot(), c.slot());
    assert_eq!((slot_a, slot_b, slot_c), (0, 1, 2));

    let mut table: Detached<ReadFixed> = Detached::new();
    assert!(table.adopt(a).is_none());
    assert!(table.adopt(b).is_none());
    assert!(table.adopt(c).is_none());
    assert_eq!(table.len(), 3);

    let mut got = table.complete(slot_b, 7).unwrap();
    assert_eq!(got.slot(), slot_b);
    match got.poll_read_fixed() {
        Poll::Ready(out) => {
            assert_eq!(out.result, Ok(7));
            assert_eq!(out.buf.buf_index(), 1);
            assert_eq!(out.buf.stable_addr(), 0x2000);
            assert_eq!(out.buf.bytes_init(), 7);
        }
        Poll::Pending => panic!("the completion was delivered"),
    }
    assert_eq!(table.len(), 2);
    assert_eq!(table.complete(slot_c, 0).unwrap().slot(), slot_c);
    assert_eq!(table.complete(slot_a, 0).unwrap().slot(), slot_a);
    assert_eq!(table.len(), 0);
}
