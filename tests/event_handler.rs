use collision_events::{
    ChannelEventCollector, ColliderHandle, ContactEvent, ContactPair, EventHandler,
    IntersectionEvent,
};
use crossbeam::channel::unbounded;

fn intersection(a: u32, b: u32, intersecting: bool) -> IntersectionEvent {
    IntersectionEvent::new(ColliderHandle(a), ColliderHandle(b), intersecting)
}

fn pair(a: u32, b: u32) -> ContactPair {
    ContactPair {
        collider1: ColliderHandle(a),
        collider2: ColliderHandle(b),
        has_any_active_contact: true,
    }
}

#[test]
fn intersection_event_new_keeps_fields() {
    let e = intersection(7, 9, true);
    assert_eq!(e.collider1, ColliderHandle(7));
    assert_eq!(e.collider2, ColliderHandle(9));
    assert!(e.intersecting);
}

#[test]
fn intersection_events_come_out_in_order() {
    let (is, ir) = unbounded();
    let (cs, _cr) = unbounded();
    let collector = ChannelEventCollector::new(is, cs);
    let sent: Vec<IntersectionEvent> = (0..50u32).map(|k| intersection(k, k + 1, k % 2 == 0)).collect();
    for e in &sent {
        collector.handle_intersection_event(*e);
    }
    let got: Vec<IntersectionEvent> = ir.try_iter().collect();
    assert_eq!(got, sent);
}

#[test]
fn three_intersection_events_drain_in_order() {
    let (is, ir) = unbounded();
    let (cs, _cr) = unbounded();
    let collector = ChannelEventCollector::new(is, cs);
    collector.handle_intersection_event(intersection(1, 2, true));
    collector.handle_intersection_event(intersection(1, 2, false));
    collector.handle_intersection_event(intersection(3, 4, true));
    let got: Vec<IntersectionEvent> = ir.try_iter().collect();
    assert_eq!(
        got,
        vec![intersection(1, 2, true), intersection(1, 2, false), intersection(3, 4, true)]
    );
}

#[test]
fn categories_stay_on_their_own_channel() {
    let (is, ir) = unbounded();
    let (cs, cr) = unbounded();
    let collector = ChannelEventCollector::new(is, cs);
    let p = pair(5, 6);
    collector.handle_contact_event(ContactEvent::Started(ColliderHandle(5), ColliderHandle(6)), &p);
    collector.handle_intersection_event(intersection(1, 2, true));
    collector.handle_contact_event(ContactEvent::Stopped(ColliderHandle(5), ColliderHandle(6)), &p);
    collector.handle_intersection_event(intersection(3, 4, false));
    let got_i: Vec<IntersectionEvent> = ir.try_iter().collect();
    let got_c: Vec<ContactEvent> = cr.try_iter().collect();
    assert_eq!(got_i, vec![intersection(1, 2, true), intersection(3, 4, false)]);
    assert_eq!(
        got_c,
        vec![
            ContactEvent::Started(ColliderHandle(5), ColliderHandle(6)),
            ContactEvent::Stopped(ColliderHandle(5), ColliderHandle(6)),
        ]
    );
}

#[test]
fn closed_receiver_is_ignored() {
    let (is, ir) = unbounded();
    let (cs, cr) = unbounded();
    let collector = ChannelEventCollector::new(is, cs);
    drop(ir);
    collector.handle_intersection_event(intersection(1, 2, true));
    collector.handle_intersection_event(intersection(1, 2, false));
    let p = pair(1, 2);
    collector.handle_contact_event(ContactEvent::Started(ColliderHandle(1), ColliderHandle(2)), &p);
    let got_c: Vec<ContactEvent> = cr.try_iter().collect();
    assert_eq!(got_c, vec![ContactEvent::Started(ColliderHandle(1), ColliderHandle(2))]);
    drop(cr);
    collector.handle_contact_event(ContactEvent::Stopped(ColliderHandle(1), ColliderHandle(2)), &p);
}

#[test]
fn noop_handler_accepts_anything() {
    let sink = ();
    let p = pair(1, 2);
    for k in 0..1000u32 {
        sink.handle_intersection_event(intersection(k, k + 1, k % 3 == 0));
        sink.handle_contact_event(ContactEvent::Started(ColliderHandle(k), ColliderHandle(k + 1)), &p);
        sink.handle_contact_event(ContactEvent::Stopped(ColliderHandle(k), ColliderHandle(k + 1)), &p);
    }
}

#[test]
fn noop_handler_behind_a_trait_object() {
    let sink: &dyn EventHandler = &();
    sink.handle_intersection_event(intersection(1, 2, true));
    sink.handle_contact_event(ContactEvent::Stopped(ColliderHandle(1), ColliderHandle(2)), &pair(1, 2));
}

#[test]
fn concurrent_senders_lose_and_duplicate_nothing() {
    let (is, ir) = unbounded();
    let (cs, cr) = unbounded();
    let collector = ChannelEventCollector::new(is, cs);
    let threads: u32 = 4;
    let per_thread: u32 = 250;
    crossbeam::scope(|s| {
        for t in 0..threads {
            let c = &collector;
            s.spawn(move |_| {
                for k in 0..per_thread {
                    c.handle_intersection_event(intersection(t, k, true));
                }
            });
        }
    })
    .unwrap();
    let mut got: Vec<(u32, u32)> = ir.try_iter().map(|e| (e.collider1.0, e.collider2.0)).collect();
    assert_eq!(got.len(), (threads * per_thread) as usize);
    for t in 0..threads {
        let from_t: Vec<u32> = got.iter().filter(|x| x.0 == t).map(|x| x.1).collect();
        assert_eq!(from_t, (0..per_thread).collect::<Vec<u32>>());
    }
    got.sort();
    got.dedup();
    assert_eq!(got.len(), (threads * per_thread) as usize);
    assert!(cr.try_iter().next().is_none());
}

#[test]
fn full_bounded_channel_does_not_block() {
    let (is, ir) = crossbeam::channel::bounded(1);
    let (cs, _cr) = crossbeam::channel::bounded(0);
    let collector = ChannelEventCollector::new(is, cs);
    collector.handle_intersection_event(intersection(1, 2, true));
    collector.handle_intersection_event(intersection(3, 4, true));
    collector.handle_contact_event(ContactEvent::Started(ColliderHandle(1), ColliderHandle(2)), &pair(1, 2));
    let got: Vec<IntersectionEvent> = ir.try_iter().collect();
    assert_eq!(got, vec![intersection(1, 2, true)]);
}
