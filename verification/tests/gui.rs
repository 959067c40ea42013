use hello::gui::{Button, Draw, Screen};
use std::cell::RefCell;
use std::rc::Rc;

struct Recorder {
    name: usize,
    log: Rc<RefCell<Vec<usize>>>,
}

impl Draw for Recorder {
    fn draw(&self) {
        self.log.borrow_mut().push(self.name);
    }
}

#[test]
fn run_draws_every_component_in_order() {
    let log = Rc::new(RefCell::new(Vec::new()));
    let mut components: Vec<Box<dyn Draw>> = Vec::new();
    for name in 0..5usize {
        components.push(Box::new(Recorder { name, log: Rc::clone(&log) }));
    }
    components.push(Box::new(Button {
        width: 50,
        height: 10,
        label: String::from("OK"),
    }));
    let screen = Screen { components };
    screen.run();
    assert_eq!(*log.borrow(), vec![0, 1, 2, 3, 4]);
    screen.run();
    assert_eq!(*log.borrow(), vec![0, 1, 2, 3, 4, 0, 1, 2, 3, 4]);
}

#[test]
fn an_empty_screen_draws_nothing() {
    let screen = Screen { components: Vec::new() };
    screen.run();
    assert_eq!(screen.components.len(), 0);
}

#[test]
fn a_button_can_be_drawn() {
    let button = Button { width: 50, height: 10, label: String::from("OK") };
    button.draw();
    assert_eq!(button.label, "OK");
    assert_eq!((button.width, button.height), (50, 10));
}
