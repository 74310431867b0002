use design_patterns::observer::{ExampleObserver, ExampleSubject, Observers};

#[test]
fn working_example() {
    let mut subject = ExampleSubject::default();
    let mut world = Observers::new();
    let obs1 = world.add(ExampleObserver::new());
    let obs2 = world.add(ExampleObserver::new());

    subject.set_state(1, &mut world);
    subject.register_observer(obs1);
    subject.set_state(2, &mut world);
    subject.register_observer(obs2);
    subject.set_state(3, &mut world);
    subject.unregister_observer(obs1);
    subject.set_state(4, &mut world);

    assert_eq!(world.get(obs1).unwrap().history(), &vec![2, 3]);
    assert_eq!(world.get(obs2).unwrap().history(), &vec![3, 4]);

    world.release(obs2);
    subject.set_state(5, &mut world);

    // no observers left although one of them was not explicitly removed
    assert_eq!(subject.observer_count(), 0);
}

#[test]
fn scenario_released_observer_gets_nothing() {
    let mut subject = ExampleSubject::new();
    let mut world = Observers::new();
    subject.set_state(1, &mut world);
    let a = world.add(ExampleObserver::new());
    subject.register_observer(a);
    subject.set_state(2, &mut world);
    assert_eq!(world.get(a).unwrap().history(), &vec![2]);
    let b = world.add(ExampleObserver::new());
    subject.register_observer(b);
    subject.set_state(3, &mut world);
    assert_eq!(world.get(a).unwrap().history(), &vec![2, 3]);
    assert_eq!(world.get(b).unwrap().history(), &vec![3]);
    subject.unregister_observer(a);
    subject.set_state(4, &mut world);
    assert_eq!(world.get(a).unwrap().history(), &vec![2, 3]);
    assert_eq!(world.get(b).unwrap().history(), &vec![3, 4]);
    world.release(b);
    assert!(!world.is_alive(b));
    assert!(world.get(b).is_none());
    subject.set_state(5, &mut world);
    assert_eq!(subject.observer_count(), 0);
    assert_eq!(*subject.get_state(), 5);
}

#[test]
fn observers_see_the_new_state() {
    let mut subject = ExampleSubject::new();
    let mut world = Observers::new();
    let a = world.add(ExampleObserver::new());
    let b = world.add(ExampleObserver::new());
    let c = world.add(ExampleObserver::new());
    subject.register_observer(a);
    subject.register_observer(b);
    subject.register_observer(c);
    subject.set_state(7, &mut world);
    subject.set_state(-3, &mut world);
    for id in [a, b, c] {
        assert_eq!(world.get(id).unwrap().history(), &vec![7, -3]);
    }
    assert_eq!(subject.observer_count(), 3);
}

#[test]
fn notification_follows_registration_order() {
    // b unregisters c when notified: c is spared only where c comes later.
    let mut world = Observers::new();
    let c = world.add(ExampleObserver::new());
    let b = world.add(ExampleObserver::detaching(vec![c]));

    let mut first = ExampleSubject::new();
    first.register_observer(b);
    first.register_observer(c);
    first.set_state(1, &mut world);
    assert_eq!(world.get(c).unwrap().history(), &Vec::<i32>::new());
    assert_eq!(first.observer_count(), 1);

    let mut second = ExampleSubject::new();
    second.register_observer(c);
    second.register_observer(b);
    second.set_state(2, &mut world);
    assert_eq!(world.get(c).unwrap().history(), &vec![2]);
    assert_eq!(world.get(b).unwrap().history(), &vec![1, 2]);
    assert_eq!(second.observer_count(), 1);
}

#[test]
fn no_late_delivery() {
    let mut subject = ExampleSubject::new();
    let mut world = Observers::new();
    let a = world.add(ExampleObserver::new());
    subject.set_state(9, &mut world);
    subject.register_observer(a);
    assert_eq!(world.get(a).unwrap().history(), &Vec::<i32>::new());
    subject.set_state(10, &mut world);
    assert_eq!(world.get(a).unwrap().history(), &vec![10]);
}

#[test]
fn unregistered_observer_stays_alive_and_silent() {
    let mut subject = ExampleSubject::new();
    let mut world = Observers::new();
    let a = world.add(ExampleObserver::new());
    let b = world.add(ExampleObserver::new());
    subject.register_observer(a);
    subject.register_observer(b);
    subject.unregister_observer(a);
    subject.set_state(1, &mut world);
    subject.set_state(2, &mut world);
    assert!(world.is_alive(a));
    assert_eq!(world.get(a).unwrap().history(), &Vec::<i32>::new());
    assert_eq!(world.get(b).unwrap().history(), &vec![1, 2]);
}

#[test]
fn unregistering_unknown_observer_is_a_no_op() {
    let mut subject = ExampleSubject::new();
    let mut world = Observers::new();
    let a = world.add(ExampleObserver::new());
    subject.register_observer(a);
    subject.unregister_observer(a + 100);
    assert_eq!(subject.observer_count(), 1);
    subject.set_state(4, &mut world);
    assert_eq!(world.get(a).unwrap().history(), &vec![4]);
}

#[test]
fn dead_subscriptions_are_pruned_lazily() {
    let mut subject = ExampleSubject::new();
    let mut world = Observers::new();
    let a = world.add(ExampleObserver::new());
    let b = world.add(ExampleObserver::new());
    let c = world.add(ExampleObserver::new());
    subject.register_observer(a);
    subject.register_observer(b);
    subject.register_observer(c);
    world.release(b);
    assert_eq!(subject.observer_count(), 3);
    subject.set_state(6, &mut world);
    assert_eq!(subject.observer_count(), 2);
    assert_eq!(world.get(a).unwrap().history(), &vec![6]);
    assert_eq!(world.get(c).unwrap().history(), &vec![6]);
}

#[test]
fn self_unregistration_skips_nobody() {
    let mut subject = ExampleSubject::new();
    let mut world = Observers::new();
    let a = world.add(ExampleObserver::new());
    // the next handle is the one this observer is about to get
    let s = world.add(ExampleObserver::detaching(vec![a + 1]));
    let b = world.add(ExampleObserver::new());
    let c = world.add(ExampleObserver::new());
    subject.register_observer(a);
    subject.register_observer(s);
    subject.register_observer(b);
    subject.register_observer(c);
    subject.set_state(1, &mut world);
    assert_eq!(world.get(a).unwrap().history(), &vec![1]);
    assert_eq!(world.get(s).unwrap().history(), &vec![1]);
    assert_eq!(world.get(b).unwrap().history(), &vec![1]);
    assert_eq!(world.get(c).unwrap().history(), &vec![1]);
    assert_eq!(subject.observer_count(), 3);
    subject.set_state(2, &mut world);
    assert_eq!(world.get(s).unwrap().history(), &vec![1]);
    assert_eq!(world.get(c).unwrap().history(), &vec![1, 2]);
}

#[test]
fn unregistering_an_earlier_observer_skips_nobody() {
    let mut subject = ExampleSubject::new();
    let mut world = Observers::new();
    let a = world.add(ExampleObserver::new());
    let x = world.add(ExampleObserver::detaching(vec![a]));
    let b = world.add(ExampleObserver::new());
    subject.register_observer(a);
    subject.register_observer(x);
    subject.register_observer(b);
    subject.set_state(3, &mut world);
    for id in [a, x, b] {
        assert_eq!(world.get(id).unwrap().history(), &vec![3]);
    }
    assert_eq!(subject.observer_count(), 2);
}

#[test]
fn duplicate_registration_notifies_twice() {
    let mut subject = ExampleSubject::new();
    let mut world = Observers::new();
    let a = world.add(ExampleObserver::new());
    subject.register_observer(a);
    subject.register_observer(a);
    subject.set_state(8, &mut world);
    assert_eq!(world.get(a).unwrap().history(), &vec![8, 8]);
    subject.unregister_observer(a);
    subject.set_state(9, &mut world);
    assert_eq!(world.get(a).unwrap().history(), &vec![8, 8, 9]);
}

#[test]
fn handles_are_never_reused() {
    let mut world = Observers::new();
    let a = world.add(ExampleObserver::new());
    world.release(a);
    let b = world.add(ExampleObserver::new());
    assert_ne!(a, b);
    assert!(!world.is_alive(a));
    assert!(world.is_alive(b));
}
