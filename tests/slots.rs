use std::cell::Cell;
use std::rc::Rc;

use tigerbeetle_unofficial::error::{AcquirePacketErrorKind, NewClientErrorKind, SendErrorKind};
use tigerbeetle_unofficial::low::{
    acquire_result, address_length, init_result, AcquireError, Client, Packet,
};
use tigerbeetle_unofficial::operation::{Operation, OperationKind};
use tigerbeetle_unofficial::pool::ResourcePool;

/// A context that counts how often it is dropped.
#[derive(Debug)]
struct Marker {
    drops: Rc<Cell<u32>>,
    tag: u32,
}

impl Drop for Marker {
    fn drop(&mut self) {
        self.drops.set(self.drops.get() + 1);
    }
}

fn marker(drops: &Rc<Cell<u32>>, tag: u32) -> Marker {
    Marker { drops: drops.clone(), tag }
}

fn op() -> Operation {
    Operation::from_kind(OperationKind::CreateAccounts)
}

#[test]
fn pool_hands_out_slots_in_order_and_takes_them_back_at_the_tail() {
    let mut pool = ResourcePool::new(3);
    assert_eq!(pool.packet_count(), 3);
    assert_eq!(pool.available(), 3);
    let a = pool.acquire_packet().unwrap();
    let b = pool.acquire_packet().unwrap();
    assert_eq!(a.packet(), 0);
    assert_eq!(b.packet(), 1);
    pool.release(a);
    let c = pool.acquire_packet().unwrap();
    assert_eq!(c.packet(), 2);
    let d = pool.acquire_packet().unwrap();
    assert_eq!(d.packet(), 0);
    assert!(pool.acquire_packet().is_none());
    assert_eq!(pool.available(), 0);
}

#[test]
fn zero_concurrency_is_refused() {
    match Client::<u32>::new(0, 100) {
        Err(e) => assert_eq!(e.kind(), NewClientErrorKind::ConcurrencyMaxInvalid),
        Ok(_) => panic!("client with no slots"),
    }
}

#[test]
fn never_more_in_use_than_capacity() {
    let capacity = 4u32;
    let mut client: Client<u32> = Client::new(capacity, 1024).unwrap();
    let mut held: Vec<Packet<u32>> = Vec::new();
    let mut refused = 0;
    for i in 0..10u32 {
        match client.acquire(i, vec![1, 2, 3], op()) {
            Ok(p) => held.push(p),
            Err(r) => {
                assert_eq!(r.user_data, i);
                refused += 1;
            }
        }
        assert!(client.in_use() <= capacity);
    }
    assert_eq!(held.len(), 4);
    assert_eq!(refused, 6);
    let mut slots: Vec<u32> = held.iter().map(|p| p.slot_index()).collect();
    slots.sort();
    slots.dedup();
    assert_eq!(slots.len(), 4);
    for p in held {
        client.submit(p);
        assert!(client.in_use() <= capacity);
    }
    assert_eq!(client.in_use(), 4);
    for s in 0..4 {
        assert!(client.complete(s, 0, &[]).is_some());
    }
    assert_eq!(client.in_use(), 0);
    assert!(client.is_idle());
}

#[test]
fn each_submitted_request_completes_exactly_once() {
    let mut client: Client<u32> = Client::new(2, 1024).unwrap();
    let p = client.acquire(7, vec![9; 8], op()).unwrap();
    let slot = p.slot_index();
    client.submit(p);
    assert!(!client.is_idle());
    let mut resolved = 0;
    for _ in 0..3 {
        if let Some(c) = client.complete(slot, 0, &[1, 2]) {
            resolved += 1;
            assert_eq!(c.user_data, 7);
            assert_eq!(c.data, vec![9; 8]);
            assert_eq!(c.operation, op());
            assert_eq!(c.result.unwrap(), vec![1, 2]);
        }
    }
    assert_eq!(resolved, 1);
    assert!(client.is_idle());
}

#[test]
fn completion_with_status_gives_the_transport_error() {
    let mut client: Client<u32> = Client::new(1, 1024).unwrap();
    let p = client.acquire(1, Vec::new(), op()).unwrap();
    assert_eq!(p.status(), Ok(()));
    let slot = p.slot_index();
    client.submit(p);
    let c = client.complete(slot, 2, &[5, 5]).unwrap();
    let e = c.result.unwrap_err();
    assert_eq!(e.code(), 2);
    assert_eq!(e.kind(), SendErrorKind::InvalidOperation);
}

#[test]
fn completion_for_an_unknown_slot_finds_nothing() {
    let mut client: Client<u32> = Client::new(2, 1024).unwrap();
    assert!(client.complete(0, 0, &[]).is_none());
    assert!(client.complete(99, 0, &[]).is_none());
    let p = client.acquire(1, Vec::new(), op()).unwrap();
    // acquired but not submitted: no completion either
    assert!(client.complete(p.slot_index(), 0, &[]).is_none());
    let (ctx, _) = client.release(p);
    assert_eq!(ctx, 1);
}

#[test]
fn release_before_submit_returns_the_context_and_never_completes() {
    let drops = Rc::new(Cell::new(0));
    let mut client: Client<Marker> = Client::new(1, 1024).unwrap();
    let p = client.acquire(marker(&drops, 5), vec![1], op()).unwrap();
    let slot = p.slot_index();
    let (ctx, data) = client.release(p);
    assert_eq!(ctx.tag, 5);
    assert_eq!(data, vec![1]);
    assert_eq!(drops.get(), 0);
    drop(ctx);
    assert_eq!(drops.get(), 1);
    assert!(client.complete(slot, 0, &[]).is_none());
    assert_eq!(client.in_use(), 0);
    let again = client.acquire(marker(&drops, 6), Vec::new(), op()).unwrap();
    assert_eq!(again.slot_index(), slot);
    assert_eq!(drops.get(), 1);
}

#[test]
fn packet_into_user_data_releases_the_slot() {
    let mut client: Client<u32> = Client::new(1, 1024).unwrap();
    let mut p = client.acquire(3, vec![4, 5], op()).unwrap();
    assert_eq!(p.data(), &[4, 5]);
    assert_eq!(*p.user_data(), 3);
    *p.user_data_mut() = 4;
    assert_eq!(p.replace_user_data(8), 4);
    p.set_operation(Operation::from_kind(OperationKind::LookupAccounts));
    assert_eq!(p.operation().kind(), OperationKind::LookupAccounts);
    p.set_status(Err(tigerbeetle_unofficial::error::SendError::new(3).unwrap()));
    assert_eq!(p.status().unwrap_err().code(), 3);
    p.set_status(Ok(()));
    assert!(p.status().is_ok());
    assert_eq!(p.into_user_data(&mut client), 8);
    assert_eq!(client.in_use(), 0);
}

#[test]
fn capacity_one_second_acquire_waits_for_the_first() {
    let mut client: Client<u32> = Client::new(1, 1024).unwrap();
    let first = client.acquire(1, Vec::new(), op()).unwrap();
    let first_slot = first.slot_index();
    let second = client.acquire(2, Vec::new(), op());
    let rejected = match second {
        Err(r) => r,
        Ok(_) => panic!("two slots out of one"),
    };
    assert_eq!(rejected.user_data, 2);
    client.submit(first);
    // still held while in flight
    assert!(client.acquire(2, Vec::new(), op()).is_err());
    let done = client.complete(first_slot, 0, &[]).unwrap();
    assert_eq!(done.user_data, 1);
    let second = client.acquire(2, Vec::new(), op()).unwrap();
    assert_eq!(second.slot_index(), first_slot);
    assert_eq!(client.in_use(), 1);
}

#[test]
fn exhausted_pool_gives_typed_error_and_keeps_the_context() {
    let drops = Rc::new(Cell::new(0));
    let mut client: Client<Marker> = Client::new(1, 1024).unwrap();
    let _held = client.acquire(marker(&drops, 1), Vec::new(), op()).unwrap();
    let r = match client.acquire(marker(&drops, 2), vec![7], op()) {
        Err(r) => r,
        Ok(_) => panic!("acquired beyond capacity"),
    };
    match &r.error {
        AcquireError::Packet(e) => {
            assert_eq!(e.kind(), AcquirePacketErrorKind::ConcurrencyMaxExceeded);
            assert_eq!(e.code(), 1);
        }
        other => panic!("unexpected {other:?}"),
    }
    assert_eq!(drops.get(), 0);
    assert_eq!(r.user_data.tag, 2);
    assert_eq!(r.data, vec![7]);
}

#[test]
fn oversized_payload_is_refused_before_any_slot_is_taken() {
    let mut client: Client<u32> = Client::new(2, 16).unwrap();
    let r = match client.acquire(1, vec![0; 17], op()) {
        Err(r) => r,
        Ok(_) => panic!("oversized payload accepted"),
    };
    assert!(matches!(r.error, AcquireError::DataTooLarge));
    assert_eq!(r.user_data, 1);
    assert_eq!(r.data.len(), 17);
    assert_eq!(client.in_use(), 0);
    // exactly at the limit is fine
    let p = client.acquire(2, vec![0; 16], op()).unwrap();
    assert_eq!(p.slot_index(), 0);
}

#[test]
fn shutdown_refuses_new_requests_but_completes_old_ones() {
    let mut client: Client<u32> = Client::new(2, 16).unwrap();
    let p = client.acquire(1, Vec::new(), op()).unwrap();
    let slot = p.slot_index();
    client.submit(p);
    client.shutdown();
    match client.acquire(2, Vec::new(), op()) {
        Err(r) => match r.error {
            AcquireError::Packet(e) => assert_eq!(e.kind(), AcquirePacketErrorKind::Shutdown),
            other => panic!("unexpected {other:?}"),
        },
        Ok(_) => panic!("acquired after shutdown"),
    }
    assert!(!client.is_idle());
    assert!(client.complete(slot, 0, &[]).is_some());
    assert!(client.is_idle());
    assert_eq!(client.concurrency_max(), 2);
}

#[test]
fn status_helpers() {
    assert_eq!(address_length(b"127.0.0.1:3000").unwrap(), 14);
    assert!(init_result(0).is_ok());
    assert_eq!(init_result(3).unwrap_err().kind(), NewClientErrorKind::AddressInvalid);
    assert!(acquire_result(0).is_ok());
    assert_eq!(acquire_result(1).unwrap_err().kind(), AcquirePacketErrorKind::ConcurrencyMaxExceeded);
}
