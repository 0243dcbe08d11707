use std::cell::Cell;
use std::rc::Rc;

use futures_glib::MyDrop;

struct Counted(Rc<Cell<u32>>);

impl Drop for Counted {
    fn drop(&mut self) {
        self.0.set(self.0.get() + 1);
    }
}

#[test]
fn my_drop_never_drops() {
    let drops = Rc::new(Cell::new(0));
    {
        let held = MyDrop::new(Counted(drops.clone()));
        assert_eq!(held.get_ref().0.get(), 0);
    }
    assert_eq!(drops.get(), 0);
}

#[test]
fn my_drop_gives_the_value() {
    let held = MyDrop::new(41u32);
    assert_eq!(*held.get_ref(), 41);
}
