use afl::corpus::{Corpus, HasTestcaseVec};
use afl::error::AflError;
use afl::in_memory::InMemoryCorpus;
use afl::inputs::{BytesInput, Input};
use afl::on_disk::{assigned_filename, OnDiskCorpus};
use afl::queue::QueueCorpus;
use afl::rand::{Rand, StdRand};
use afl::testcase::Testcase;

fn bytes_case(bytes: Vec<u8>) -> Testcase<BytesInput> {
    Testcase::with_input(BytesInput::new(bytes))
}

fn input_bytes(t: &Testcase<BytesInput>) -> Vec<u8> {
    t.input().as_ref().unwrap().to_bytes()
}

#[test]
fn test_queuecorpus() {
    let mut rand = StdRand::new(0);
    let mut q = QueueCorpus::new(OnDiskCorpus::<BytesInput, StdRand>::new(String::from(
        "fancy/path",
    )));
    let t = Testcase::with_both(BytesInput::new(vec![0 as u8; 4]), "fancyfile".into());
    q.add(t);
    let filename = q
        .next(&mut rand)
        .unwrap()
        .0
        .filename()
        .as_ref()
        .unwrap()
        .to_owned();
    assert_eq!(
        filename,
        q.next(&mut rand)
            .unwrap()
            .0
            .filename()
            .as_ref()
            .unwrap()
            .to_owned()
    );
    assert_eq!(filename, "fancyfile");
}

#[test]
fn random_entry_and_next_stay_in_bounds() {
    let mut rand = StdRand::new(7);
    let mut c = InMemoryCorpus::<BytesInput, StdRand>::new();
    for i in 0..5u8 {
        c.add(bytes_case(vec![i]));
    }
    for _ in 0..200 {
        let (t, i) = c.random_entry(&mut rand).unwrap();
        assert!(i < c.count());
        assert_eq!(input_bytes(t), vec![i as u8]);
    }
    for _ in 0..200 {
        let i = c.next(&mut rand).unwrap().1;
        assert!(i < 5);
        let (t, j) = c.current_testcase();
        assert_eq!(i, j);
        assert_eq!(input_bytes(t), vec![i as u8]);
    }
}

#[test]
fn remove_twice_finds_nothing_the_second_time() {
    let mut c = InMemoryCorpus::<BytesInput, StdRand>::new();
    c.add(bytes_case(vec![1]));
    c.add(bytes_case(vec![2]));
    c.add(bytes_case(vec![3]));
    let e = Testcase::<BytesInput> {
        input: None,
        filename: None,
        metadata: Vec::new(),
        handle: c.get(1).handle(),
    };
    let first = c.remove(&e).unwrap();
    assert_eq!(input_bytes(&first), vec![2]);
    assert_eq!(c.count(), 2);
    assert!(c.remove(&e).is_none());
    assert_eq!(c.count(), 2);
    assert_eq!(input_bytes(c.get(0)), vec![1]);
    assert_eq!(input_bytes(c.get(1)), vec![3]);
}

#[test]
fn remove_matches_identity_not_content() {
    let mut c = InMemoryCorpus::<BytesInput, StdRand>::new();
    c.add(bytes_case(vec![9]));
    let same_content = bytes_case(vec![9]);
    assert!(c.remove(&same_content).is_none());
    assert_eq!(c.count(), 1);
}

#[test]
fn queue_counts_cycles() {
    let mut rand = StdRand::new(0);
    let mut q = QueueCorpus::new(InMemoryCorpus::<BytesInput, StdRand>::new());
    for i in 0..3u8 {
        q.add(bytes_case(vec![i]));
    }
    assert_eq!(q.pos(), 0);
    assert_eq!(q.cycles(), 0);
    for k in 0..3usize {
        let (t, i) = q.next(&mut rand).unwrap();
        assert_eq!(i, k);
        assert_eq!(input_bytes(t), vec![k as u8]);
    }
    assert_eq!(q.cycles(), 0);
    assert_eq!(q.pos(), 3);
    let (_, i) = q.next(&mut rand).unwrap();
    assert_eq!(i, 0);
    assert_eq!(q.cycles(), 1);
    assert_eq!(q.pos(), 1);
    let (t, i) = q.current_testcase();
    assert_eq!(i, 0);
    assert_eq!(input_bytes(t), vec![0]);
}

#[test]
fn replace_then_get_gives_the_new_content() {
    let mut c = InMemoryCorpus::<BytesInput, StdRand>::new();
    c.add(bytes_case(vec![1]));
    c.add(bytes_case(vec![2]));
    let handle = c.get(1).handle();
    let t = Testcase::with_both(BytesInput::new(vec![5, 6]), "five".into());
    assert!(c.replace(1, t).is_ok());
    assert_eq!(input_bytes(c.get(1)), vec![5, 6]);
    assert_eq!(c.get(1).filename().as_deref(), Some("five"));
    assert_eq!(c.get(1).handle(), handle);
    assert_eq!(c.count(), 2);
}

#[test]
fn replace_out_of_bounds_is_key_not_found() {
    let mut c = InMemoryCorpus::<BytesInput, StdRand>::new();
    c.add(bytes_case(vec![1]));
    let r = c.replace(1, bytes_case(vec![2]));
    assert!(matches!(r, Err(AflError::KeyNotFound(_))));
    let r = c.replace(7, bytes_case(vec![2]));
    assert!(matches!(r, Err(AflError::KeyNotFound(_))));
    assert_eq!(input_bytes(c.get(0)), vec![1]);
}

#[test]
fn load_testcase_fills_input_of_filename_only_entry() {
    let mut c = InMemoryCorpus::<BytesInput, StdRand>::new();
    c.add(Testcase::with_filename("queue/id_3".into()));
    assert!(c.get(0).input().is_none());
    let source = c.load_source(0).unwrap().unwrap().clone();
    assert_eq!(source, "queue/id_3");
    assert!(c.load_testcase(0, &[1, 2, 3]).is_ok());
    assert_eq!(input_bytes(c.get(0)), vec![1, 2, 3]);
    assert_eq!(c.get(0).filename().as_deref(), Some("queue/id_3"));
    assert!(c.load_source(0).unwrap().is_none());
}

#[test]
fn load_testcase_leaves_loaded_entry_alone() {
    let mut c = InMemoryCorpus::<BytesInput, StdRand>::new();
    c.add(bytes_case(vec![4]));
    assert!(c.load_testcase(0, &[9, 9]).is_ok());
    assert_eq!(input_bytes(c.get(0)), vec![4]);
}

#[test]
fn load_without_input_or_filename_is_illegal_state() {
    let mut c = InMemoryCorpus::<BytesInput, StdRand>::new();
    c.add(Testcase::<BytesInput> {
        input: None,
        filename: None,
        metadata: Vec::new(),
        handle: None,
    });
    assert!(matches!(c.load_source(0), Err(AflError::IllegalState(_))));
    assert!(matches!(
        c.load_testcase(0, &[1]),
        Err(AflError::IllegalState(_))
    ));
}

#[test]
fn empty_corpus_next_is_empty_error() {
    let mut rand = StdRand::new(1);
    let mut q = QueueCorpus::new(InMemoryCorpus::<BytesInput, StdRand>::new());
    assert!(matches!(q.next(&mut rand), Err(AflError::Empty(_))));
    assert_eq!(q.pos(), 0);
    assert_eq!(q.cycles(), 0);
    let mut c = InMemoryCorpus::<BytesInput, StdRand>::new();
    assert!(matches!(c.next(&mut rand), Err(AflError::Empty(_))));
    assert!(matches!(c.random_entry(&mut rand), Err(AflError::Empty(_))));
}

#[test]
fn on_disk_add_names_entry_under_directory() {
    let mut c = OnDiskCorpus::<BytesInput, StdRand>::new(String::from("fancy/path"));
    c.add(bytes_case(vec![0, 0, 0, 0]));
    assert_eq!(c.get(0).filename().as_deref(), Some("fancy/path/id_0"));
    c.add(Testcase::with_both(BytesInput::new(vec![1]), "kept".into()));
    assert_eq!(c.get(1).filename().as_deref(), Some("kept"));
    c.add(bytes_case(vec![2]));
    assert_eq!(c.get(2).filename().as_deref(), Some("fancy/path/id_2"));
}

#[test]
fn on_disk_names_do_not_collide_after_removal() {
    let mut c = OnDiskCorpus::<BytesInput, StdRand>::new(String::from("out/"));
    c.add(bytes_case(vec![0]));
    c.add(bytes_case(vec![1]));
    let e = Testcase::<BytesInput> {
        input: None,
        filename: None,
        metadata: Vec::new(),
        handle: c.get(0).handle(),
    };
    assert!(c.remove(&e).is_some());
    c.add(bytes_case(vec![2]));
    assert_eq!(c.get(0).filename().as_deref(), Some("out/id_1"));
    assert_eq!(c.get(1).filename().as_deref(), Some("out/id_2"));
}

#[test]
fn assigned_filename_joins_like_a_path() {
    assert_eq!(assigned_filename(&String::from("d"), 1234), "d/id_1234");
    assert_eq!(assigned_filename(&String::from("d/"), 10), "d/id_10");
    assert_eq!(assigned_filename(&String::new(), 0), "id_0");
    assert_eq!(
        assigned_filename(&String::from("x"), u64::MAX),
        "x/id_18446744073709551615"
    );
}

#[test]
fn std_rand_below_is_bounded_and_seeded() {
    let mut a = StdRand::new(42);
    let mut b = StdRand::new(42);
    for bound in 1..100u64 {
        let x = a.below(bound);
        assert!(x < bound);
        assert_eq!(x, b.below(bound));
    }
    let mut one = StdRand::new(3);
    assert_eq!(one.below(1), 0);
}

#[test]
fn testcase_metadata_is_a_mapping_by_kind() {
    let mut t = Testcase::with_filename("f".into());
    let _: &Option<BytesInput> = t.input();
    let exec_time = String::from("exec_time");
    assert!(t.get_metadata(&exec_time).is_none());
    t.set_metadata("exec_time".into(), vec![1, 2]);
    t.set_metadata("origin".into(), vec![7]);
    t.set_metadata("exec_time".into(), vec![3]);
    assert_eq!(t.metadata().len(), 2);
    assert_eq!(t.metadata()[0].kind, "exec_time");
    assert_eq!(t.get_metadata(&exec_time), Some(&vec![3]));
    assert_eq!(t.get_metadata(&String::from("origin")), Some(&vec![7]));
    t.set_input(BytesInput::new(vec![8]));
    assert_eq!(input_bytes(&t), vec![8]);
    assert_eq!(t.filename().as_deref(), Some("f"));
    assert_eq!(BytesInput::from_bytes(&[3, 4]).bytes(), &[3, 4]);
}

#[test]
fn queue_delegates_storage() {
    let mut rand = StdRand::new(5);
    let mut q = QueueCorpus::new(OnDiskCorpus::<BytesInput, StdRand>::new(String::from("q")));
    q.add(bytes_case(vec![1]));
    q.add(bytes_case(vec![2]));
    assert_eq!(q.count(), 2);
    assert_eq!(q.entries().len(), 2);
    assert_eq!(q.get(1).filename().as_deref(), Some("q/id_1"));
    let (_, i) = q.random_entry(&mut rand).unwrap();
    assert!(i < 2);
    assert_eq!(q.pos(), 0);
}
