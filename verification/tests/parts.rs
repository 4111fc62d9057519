use uring_fixed::buf::FixedBuf;
use uring_fixed::fd::Descriptor;
use uring_fixed::op::{decode_result, Op, OsError, Payload};
use uring_fixed::queue::{OpKind, Submission, SubmissionQueue, SubmitError};
use uring_fixed::read_fixed::ReadFixed;
use uring_fixed::write_fixed::WriteFixed;

fn entry(offset: u64) -> Submission {
    Submission { kind: OpKind::WriteFixed, fd: 1, addr: 16, len: 8, buf_index: 0, offset }
}

#[test]
fn region_keeps_the_values_it_was_made_with() {
    let buf = FixedBuf::new(65535, 4096, 8192, 100).unwrap();
    assert_eq!(buf.buf_index(), 65535);
    assert_eq!(buf.stable_addr(), 4096);
    assert_eq!(buf.bytes_total(), 8192);
    assert_eq!(buf.bytes_init(), 100);
}

#[test]
fn region_with_more_data_than_room_is_refused() {
    assert!(FixedBuf::new(0, 0, 10, 11).is_none());
    assert!(FixedBuf::new(0, 0, 10, 10).is_some());
    assert!(FixedBuf::new(0, 0, 0, 0).is_some());
}

#[test]
fn region_that_wraps_the_address_space_is_refused() {
    assert!(FixedBuf::new(0, usize::MAX, 1, 0).is_none());
    assert!(FixedBuf::new(0, usize::MAX - 1, 1, 0).is_some());
    assert!(FixedBuf::new(0, usize::MAX, 0, 0).is_some());
}

#[test]
fn region_longer_than_a_submission_can_ask_for_is_refused() {
    let most = u32::MAX as usize;
    assert!(FixedBuf::new(0, 0, most, 0).is_some());
    if let Some(over) = most.checked_add(1) {
        assert!(FixedBuf::new(0, 0, over, 0).is_none());
    }
}

#[test]
fn raw_result_is_a_count_or_an_error() {
    assert_eq!(decode_result(0), Ok(0));
    assert_eq!(decode_result(100), Ok(100));
    assert_eq!(decode_result(i32::MAX), Ok(2147483647));
    assert_eq!(decode_result(-1), Err(OsError { code: 1 }));
    assert_eq!(decode_result(-5), Err(OsError { code: 5 }));
    assert_eq!(decode_result(i32::MIN), Err(OsError { code: 2147483648 }));
}

#[test]
fn read_asks_for_the_whole_capacity() {
    let (_desc, fd) = Descriptor::open(11);
    let buf = FixedBuf::new(6, 0x7000, 512, 100).unwrap();
    let payload = ReadFixed { fd, buf, offset: 1 << 40 };
    assert_eq!(
        payload.build(),
        Submission {
            kind: OpKind::ReadFixed,
            fd: 11,
            addr: 0x7000,
            len: 512,
            buf_index: 6,
            offset: 1 << 40,
        }
    );
}

#[test]
fn write_asks_for_the_initialized_bytes() {
    let (_desc, fd) = Descriptor::open(-1);
    let buf = FixedBuf::new(6, 0x7000, 512, 100).unwrap();
    let payload = WriteFixed { fd, buf, offset: u64::MAX };
    assert_eq!(
        payload.build(),
        Submission {
            kind: OpKind::WriteFixed,
            fd: -1,
            addr: 0x7000,
            len: 100,
            buf_index: 6,
            offset: u64::MAX,
        }
    );
}

#[test]
fn submit_with_queues_what_the_payload_builds() {
    let (_desc, fd) = Descriptor::open(3);
    let buf = FixedBuf::new(0, 64, 32, 8).unwrap();
    let mut queue = SubmissionQueue::new(2);
    let op = Op::submit_with(WriteFixed { fd, buf, offset: 2 }, &mut queue).unwrap();
    assert_eq!(op.slot(), 0);
    assert!(!op.is_done());
    let queued = queue.pop().unwrap();
    assert_eq!(queued.slot, 0);
    assert_eq!(
        queued.entry,
        Submission { kind: OpKind::WriteFixed, fd: 3, addr: 64, len: 8, buf_index: 0, offset: 2 }
    );
}

#[test]
fn queue_hands_out_in_order_with_rising_slots() {
    let mut queue = SubmissionQueue::new(3);
    assert_eq!(queue.len(), 0);
    assert!(!queue.is_full());
    assert_eq!(queue.push(entry(10)), Ok(0));
    assert_eq!(queue.push(entry(20)), Ok(1));
    assert_eq!(queue.push(entry(30)), Ok(2));
    assert!(queue.is_full());
    assert_eq!(queue.push(entry(40)), Err(SubmitError::QueueFull));
    assert_eq!(queue.len(), 3);

    let first = queue.pop().unwrap();
    assert_eq!((first.slot, first.entry.offset), (0, 10));
    assert_eq!(queue.push(entry(50)), Ok(3));
    let second = queue.pop().unwrap();
    assert_eq!((second.slot, second.entry.offset), (1, 20));
    let third = queue.pop().unwrap();
    assert_eq!((third.slot, third.entry.offset), (2, 30));
    let fourth = queue.pop().unwrap();
    assert_eq!((fourth.slot, fourth.entry.offset), (3, 50));
    assert_eq!(queue.pop(), None);
    assert_eq!(queue.len(), 0);
}

#[test]
fn descriptor_closes_with_its_last_handle() {
    let (mut desc, first) = Descriptor::open(5);
    assert_eq!(desc.raw_fd(), 5);
    assert_eq!(first.raw_fd(), 5);
    assert_eq!(desc.handles(), 1);
    assert!(desc.is_open());

    let second = desc.clone_handle(&first).unwrap();
    let third = desc.clone_handle(&second).unwrap();
    assert_eq!(third.raw_fd(), 5);
    assert_eq!(desc.handles(), 3);

    assert!(!desc.drop_handle(first));
    assert!(!desc.drop_handle(third));
    assert!(desc.is_open());
    assert!(desc.drop_handle(second));
    assert!(!desc.is_open());
    assert_eq!(desc.handles(), 0);
}

#[test]
fn descriptor_ignores_handles_of_another() {
    let (mut one, of_one) = Descriptor::open(5);
    let (mut two, of_two) = Descriptor::open(6);
    assert!(one.clone_handle(&of_two).is_none());
    assert_eq!(one.handles(), 1);
    assert!(!one.drop_handle(of_two));
    assert_eq!(one.handles(), 1);
    assert!(one.is_open());
    assert!(!two.drop_handle(of_one));
    assert_eq!(two.handles(), 1);
}

#[test]
fn closed_descriptor_makes_no_handles() {
    let (mut desc, first) = Descriptor::open(5);
    let (_other, same_number) = Descriptor::open(5);
    assert!(desc.drop_handle(first));
    assert!(!desc.is_open());
    assert!(desc.clone_handle(&same_number).is_none());
    assert!(!desc.drop_handle(same_number));
    assert_eq!(desc.handles(), 0);
}
