use std::sync::Mutex;
use threadlake::builder::Builder;
use threadlake::disjointer::Disjointer;
use threadlake::threadlake::{take_shared, ThreadLake};
use threadlake::threadutilities::ThreadUtilities;
use threadlake::traits::FullParallelism;

fn lake_of<D>(builder: Option<Builder<D>>) -> ThreadLake<D, (), usize> {
    builder.unwrap().build()
}

#[test]
fn hello_lakes() {
    let lake: ThreadLake<(), (), ()> = Builder::new(4, None).unwrap().build();
    for id in 0..lake.max_threads() {
        let x = lake.worker(id);
        println!("Hello from thread {}", x.index());
        assert_eq!(x.index(), id);
    }
}

#[test]
fn sum() {
    let n = 1000005;
    let lake: ThreadLake<(), (), ()> = Builder::new(10, None).unwrap().build();
    let mut total: usize = 0;
    for id in 0..lake.max_threads() {
        let x = lake.worker(id);
        let part: usize = x.range(n).sum();
        total += part;
    }
    assert_eq!(total, 500004500010);
}

#[test]
fn index_search() {
    let mut test_vector: Vec<_> = (0..1000000).map(|_| 0).collect();
    test_vector[759246] = 100;
    let lake = lake_of(Builder::with_data(10, test_vector, None));
    let mut found = Vec::new();
    for id in 0..lake.max_threads() {
        let x = lake.worker(id);
        let v = x.data();
        let subslice = x.split_slice(v.as_slice());
        let hit = subslice
            .iter()
            .enumerate()
            .find_map(|(ind, val)| if *val != 0 { Some(ind + subslice.width() * x.index()) } else { None });
        if let Some(h) = hit {
            found.push((id, h));
        }
    }
    assert_eq!(found, vec![(7, 759246)]);
}

#[test]
fn simple_stop() {
    let lake: ThreadLake<(), (), ()> = Builder::new(5, None).unwrap().build();
    let workers: Vec<ThreadUtilities<(), ()>> = (0..5).map(|id| lake.worker(id)).collect();
    for x in &workers {
        if x.index() == 0 {
            x.send(()).unwrap();
        }
        assert!(!x.check());
    }
    lake.receiver().recv().unwrap();
    lake.stop();
    for x in &workers {
        assert!(x.check());
    }
}

#[test]
fn simple_messages() {
    let lake: ThreadLake<(), (), usize> = Builder::new(FullParallelism, Some(6)).unwrap().build();
    for id in 0..lake.max_threads() {
        let x = lake.worker(id);
        x.send(x.index()).unwrap();
    }
    let mut got = Vec::new();
    for _ in 0..lake.max_threads() {
        got.push(lake.receiver().recv().unwrap());
    }
    assert_eq!(got, vec![0, 1, 2, 3, 4, 5]);
}

fn multithread_search<T, P>(data: Vec<T>, predicate: P) -> bool
where
    P: Fn(&T) -> bool,
{
    let lake: ThreadLake<(Vec<T>, P), (), Option<()>> =
        Builder::with_data(FullParallelism, (data, predicate), Some(8)).unwrap().build();
    for id in 0..lake.max_threads() {
        let x = lake.worker(id);
        let (data, pred) = x.data();
        let subslice = x.split_slice(data.as_slice());
        let mut hit = false;
        for element in subslice.iter() {
            if (pred)(element) {
                hit = true;
                break;
            }
        }
        x.send(if hit { Some(()) } else { None }).ok();
    }
    for _ in 0..lake.max_threads() {
        if let Some(_) = lake.receiver().recv().unwrap() {
            return true;
        }
    }
    false
}

#[test]
fn search_test() {
    let list: Vec<_> = (0..1000000).enumerate().map(|(i, _)| i).collect();
    assert_eq!(multithread_search(list.clone(), |x| *x == 10000), true);
    assert_eq!(multithread_search(list.clone(), |x| *x == 1000001), false);
}

#[test]
fn name_test() {
    let lake: ThreadLake<(), (), ()> = Builder::new(3, None)
        .unwrap()
        .names(|x: usize| format!("My Thread {}", x))
        .build();
    for i in 0..lake.max_threads() {
        assert_eq!(lake.name(i).as_str(), format!("My Thread {}", i).as_str());
        assert_eq!(lake.worker(i).name().as_str(), format!("My Thread {}", i).as_str());
    }
}

#[test]
fn disjoint_test() {
    let v = vec![0; 100000];
    let mut v = Disjointer::new(v);
    let lake: ThreadLake<(), (), ()> = Builder::new(FullParallelism, Some(7)).unwrap().build();
    for id in 0..lake.max_threads() {
        let x = lake.worker(id);
        let mut subslice = v.piece(&x);
        let offset = subslice.width() * x.index();
        for (i, element) in subslice.iter_mut().enumerate() {
            *element = *element + (i + offset);
        }
    }
    let d = v.take();
    let lake = lake_of(Builder::with_data(FullParallelism, d, Some(7)));
    let mut all = true;
    for id in 0..lake.max_threads() {
        let x = lake.worker(id);
        let subslice = x.split_slice(x.data());
        let offset = subslice.width() * x.index();
        all = all && subslice.iter().enumerate().all(|(i, x)| *x == i + offset);
    }
    assert!(all);
}

#[test]
fn mutex_test() {
    let test_vector: Vec<_> = (0..100000).map(|x| x).collect();
    let results = Mutex::new(Vec::<i32>::new());
    let lake: ThreadLake<(Vec<i32>, Mutex<Vec<i32>>), (), ()> =
        Builder::with_data(FullParallelism, (test_vector, results), Some(4)).unwrap().build();
    for id in 0..lake.max_threads() {
        let x = lake.worker(id);
        let subslice = x.split_slice(&x.data().0);
        for element in subslice.iter() {
            if (*element as f64).log2() == (*element as f64).log2().floor() {
                let mut res = x.data().1.lock().unwrap();
                res.push(*element);
            }
        }
    }
    let (_, data) = lake.into_handles();
    let (_, results) = take_shared(data).unwrap();
    let mut results = results.into_inner().unwrap();
    results.sort();
    assert_eq!(
        results,
        vec![0, 1, 2, 4, 8, 16, 32, 64, 128, 256, 512, 1024, 2048, 4096, 8192, 16384, 32768, 65536]
    );
}
