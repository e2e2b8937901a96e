use threadlake::builder::{default_name, default_names, Builder, DEFAULT_CHECK_SLEEP_MS};
use threadlake::disjointer::{number_by_pieces, Disjointer};
use threadlake::partition::{chunk_bounds, chunk_range};
use threadlake::signal::{answer_check, Reaction, RunState, Signal};
use threadlake::split::{split_region, split_region_mut};
use threadlake::threadlake::{take_shared, ThreadLake};
use threadlake::traits::{FullParallelism, PartialParallelism, ThreadCount, ThreadName};

#[test]
fn chunk_range_exact_values() {
    assert_eq!(chunk_range(0, 3, 10), Some(0..3));
    assert_eq!(chunk_range(1, 3, 10), Some(3..6));
    assert_eq!(chunk_range(2, 3, 10), Some(6..10));
    assert_eq!(chunk_bounds(9, 10, 1000005), (900000, 1000005));
}

#[test]
fn chunk_range_without_such_worker() {
    assert_eq!(chunk_range(0, 0, 10), None);
    assert_eq!(chunk_range(3, 3, 10), None);
}

#[test]
fn fewer_elements_than_workers() {
    assert_eq!(chunk_range(0, 4, 3), Some(0..0));
    assert_eq!(chunk_range(2, 4, 3), Some(0..0));
    assert_eq!(chunk_range(3, 4, 3), Some(0..3));
    assert_eq!(chunk_range(0, 1, 0), Some(0..0));
}

#[test]
fn chunks_cover_total_once() {
    for count in 1..12usize {
        for total in [0usize, 1, 5, 11, 12, 13, 100, 1001] {
            let mut next = 0;
            for index in 0..count {
                let r = chunk_range(index, count, total).unwrap();
                assert_eq!(r.start, next);
                next = r.end;
            }
            assert_eq!(next, total);
        }
    }
}

#[test]
fn chunk_lengths() {
    let (count, total) = (7usize, 100usize);
    for index in 0..count {
        let r = chunk_range(index, count, total).unwrap();
        if index + 1 < count {
            assert_eq!(r.len(), total / count);
        } else {
            assert_eq!(r.len(), total / count + total % count);
        }
    }
    assert_eq!(chunk_range(6, 7, 100), Some(84..100));
}

#[test]
fn split_region_is_the_chunk() {
    let v: Vec<u32> = (0..10).collect();
    let s = split_region(v.as_slice(), 2, 3);
    assert_eq!(s.as_slice(), &[6, 7, 8, 9]);
    assert_eq!(s.width(), 3);
    assert_eq!(s.len(), 4);
    assert_eq!(*s.get(1), 7);
}

#[test]
fn split_region_mut_writes_in_place() {
    let mut v: Vec<u32> = vec![0; 10];
    {
        let mut s = split_region_mut(v.as_mut_slice(), 1, 3);
        assert_eq!(s.width(), 3);
        for i in 0..s.len() {
            s.set(i, 7);
        }
        assert_eq!(*s.get(2), 7);
        assert_eq!(s.iter().count(), 3);
    }
    assert_eq!(v, vec![0, 0, 0, 7, 7, 7, 0, 0, 0, 0]);
}

#[test]
fn disjointer_round_trip_sequential() {
    let lake: ThreadLake<(), (), ()> = Builder::new(4, None).unwrap().build();
    let mut d = Disjointer::new(vec![0usize; 10]);
    for id in 0..4 {
        let w = lake.worker(id);
        let mut p = d.piece(&w);
        let offset = p.width() * w.index();
        for i in 0..p.len() {
            p.set(i, i + offset);
        }
    }
    assert_eq!(d.take(), (0..10).collect::<Vec<usize>>());
}

#[test]
fn count_policies() {
    assert_eq!(5usize.get(None), Some(5));
    assert_eq!(5usize.get(Some(2)), Some(5));
    assert_eq!(FullParallelism.get(Some(8)), Some(8));
    assert!(FullParallelism.needs_report());
    assert!(!PartialParallelism.needs_report());
    assert!(!5usize.needs_report());
    assert_eq!(PartialParallelism.get(Some(8)), Some(7));
    assert_eq!(PartialParallelism.get(Some(1)), Some(0));
    assert_eq!(PartialParallelism.get(Some(0)), Some(0));
    assert_eq!(PartialParallelism.get(None), Some(1));
    assert_eq!((|a: Option<usize>| a.unwrap_or(2) * 2).get(Some(3)), Some(6));
    assert_eq!((|a: Option<usize>| a.unwrap_or(2) * 2).get(None), Some(4));
}

#[test]
fn name_policies() {
    assert_eq!(String::from("w").get(4), "w");
    assert_eq!((|i: usize| format!("n{}", i)).get(4), "n4");
}

#[test]
fn builder_follows_policy_on_report() {
    assert!(FullParallelism.needs_report());
    assert_eq!(Builder::with_data(PartialParallelism, 1u8, None).unwrap().thread_count(), 1);
    assert_eq!(Builder::new(FullParallelism, Some(3)).unwrap().thread_count(), 3);
}

#[test]
fn default_worker_names() {
    assert_eq!(default_name(305), "ThreadLake thread 305");
    let names = default_names(12);
    assert_eq!(names.len(), 12);
    assert_eq!(names[0], "ThreadLake thread 0");
    assert_eq!(names[11], "ThreadLake thread 11");
    let lake: ThreadLake<(), (), ()> = Builder::new(3, None).unwrap().build();
    assert_eq!(lake.name(2).as_str(), "ThreadLake thread 2");
}

#[test]
fn first_names_are_kept() {
    let lake: ThreadLake<(), (), ()> = Builder::new(2, None)
        .unwrap()
        .names(|i: usize| format!("a{}", i))
        .names(|i: usize| format!("b{}", i))
        .build();
    assert_eq!(lake.max_threads(), 2);
    assert_eq!(lake.name(0).as_str(), "a0");
    assert_eq!(lake.name(1).as_str(), "a1");
}

#[test]
fn check_sleep_setting() {
    let b = Builder::new(2, None).unwrap();
    let fresh: ThreadLake<(), (), ()> = Builder::new(2, None).unwrap().build();
    assert_eq!(fresh.worker(0).sleep_interval(), DEFAULT_CHECK_SLEEP_MS);
    assert_eq!(b.sleep_interval(), DEFAULT_CHECK_SLEEP_MS);
    let b = b.check_sleep(25);
    assert_eq!(b.sleep_interval(), 25);
    let lake: ThreadLake<(), (), ()> = b.build();
    assert_eq!(lake.sleep_interval(), 25);
    assert_eq!(lake.worker(1).sleep_interval(), 25);
}

#[test]
fn zero_workers() {
    let lake: ThreadLake<(), (), ()> = Builder::new(0, None).unwrap().build();
    assert_eq!(lake.max_threads(), 0);
    assert!(lake.is_full());
}

#[test]
fn signal_reactions() {
    assert_eq!(Signal::Unset.reaction(), Reaction::Proceed);
    assert_eq!(Signal::Play.reaction(), Reaction::Proceed);
    assert_eq!(Signal::Pause.reaction(), Reaction::Wait);
    assert_eq!(Signal::Stop.reaction(), Reaction::Halt);
    assert!(answer_check(Signal::Stop));
    assert!(!answer_check(Signal::Play));
    assert!(!answer_check(Signal::Unset));
    assert!(!answer_check(Signal::Pause));
}

#[test]
fn signal_overwrites() {
    let s = RunState::new();
    assert_eq!(s.read(), Signal::Unset);
    assert!(!s.check());
    s.set(Signal::Stop);
    assert!(s.check());
    s.set(Signal::Stop);
    assert!(s.check());
    s.set(Signal::Pause);
    assert_eq!(s.read(), Signal::Pause);
    s.set(Signal::Play);
    assert!(!s.check());
}

#[test]
fn lake_signal_transitions() {
    let lake: ThreadLake<(), (), ()> = Builder::new(2, None).unwrap().build();
    let w = lake.worker(1);
    assert_eq!(lake.signal(), Signal::Unset);
    lake.pause();
    assert_eq!(lake.signal(), Signal::Pause);
    lake.play();
    assert!(!w.check());
    lake.stop();
    assert!(w.check());
    lake.pause();
    assert_eq!(lake.signal(), Signal::Pause);
}

#[test]
fn send_fails_once_coordinator_is_gone() {
    let lake: ThreadLake<(), (), u32> = Builder::new(2, None).unwrap().build();
    let w = lake.worker(0);
    assert!(w.send(1).is_ok());
    drop(lake);
    let e = w.send(5).unwrap_err();
    assert_eq!(e.0, 5);
}

#[test]
fn payload_reclaimed_only_as_last_handle() {
    let lake: ThreadLake<Vec<u8>, (), ()> = Builder::with_data(2, vec![1, 2], None).unwrap().build();
    let w = lake.worker(0);
    assert_eq!(*w.arc(), vec![1, 2]);
    let (_, data) = lake.into_handles();
    let data = match take_shared(data) {
        None => w.arc(),
        Some(_) => panic!("a worker still holds the payload"),
    };
    drop(w);
    assert_eq!(take_shared(data), Some(vec![1, 2]));
}

#[test]
fn handles_recorded_in_order() {
    let mut lake: ThreadLake<(), &str, ()> = Builder::new(2, None).unwrap().build();
    while !lake.is_full() {
        let w = lake.next_worker();
        let h = if w.index() == 0 { "first" } else { "second" };
        lake = lake.with_handle(h);
    }
    assert_eq!(lake.started(), 2);
    assert_eq!(*lake.handle(1), "second");
    let (handles, _) = lake.into_handles();
    assert_eq!(handles, vec!["first", "second"]);
}

#[test]
fn numbering_by_pieces_gives_every_position_its_index() {
    let lake: ThreadLake<(), (), ()> = Builder::new(6, None).unwrap().build();
    let mut d = Disjointer::new(vec![0usize; 100003]);
    number_by_pieces(&lake, &mut d);
    assert_eq!(d.len(), 100003);
    assert_eq!(d.take(), (0..100003).collect::<Vec<usize>>());
}

#[test]
fn pool_without_names_gets_default_names() {
    let lake: ThreadLake<u8, (), ()> = ThreadLake::with_data(3, 9, Vec::new(), 10);
    assert_eq!(lake.name(0).as_str(), "ThreadLake thread 0");
    assert_eq!(lake.name(2).as_str(), "ThreadLake thread 2");
    assert_eq!(*lake.data(), 9);
    assert_eq!(lake.started(), 0);
    assert_eq!(lake.signal(), Signal::Unset);
    let named: ThreadLake<u8, (), ()> =
        ThreadLake::with_data(2, 1, vec![String::from("a"), String::from("b")], 10);
    assert_eq!(named.name(1).as_str(), "b");
}
