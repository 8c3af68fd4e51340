use locks::Arc;
use std::cell::Cell;
use std::rc::Rc;

struct Counted(Rc<Cell<u32>>);

impl Drop for Counted {
    fn drop(&mut self) {
        self.0.set(self.0.get() + 1);
    }
}

#[test]
fn arc_derefs_to_value() {
    let a = Arc::new(String::from("shared"));
    let b = a.clone();
    assert_eq!(*a, "shared");
    assert_eq!(*b, "shared");
}

#[test]
fn arc_get_mut_only_when_unique() {
    let mut a = Arc::new(10u32);
    *Arc::get_mut(&mut a).expect("unique") += 1;
    let b = a.clone();
    assert!(Arc::get_mut(&mut a).is_none());
    assert_eq!(*b, 11);
    drop(b);
    *Arc::get_mut(&mut a).expect("unique again") += 1;
    assert_eq!(*a, 12);
}

#[test]
fn arc_value_dropped_once_after_last_handle() {
    let drops = Rc::new(Cell::new(0));
    let first = Arc::new(Counted(drops.clone()));
    let mut handles: Vec<Arc<Counted>> = (0..5).map(|_| first.clone()).collect();
    handles.insert(2, first);
    // Drop in a scrambled order.
    for i in [3usize, 0, 3, 1, 0] {
        handles.remove(i);
        assert_eq!(drops.get(), 0);
    }
    assert_eq!(handles.len(), 1);
    handles.clear();
    assert_eq!(drops.get(), 1);
}
