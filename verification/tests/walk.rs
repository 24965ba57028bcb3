use simple_cd::walk::{Listed, Step, Walker};

fn file(name: &str) -> Listed {
    Listed { name: name.to_string(), is_dir: false }
}

fn dir(name: &str) -> Listed {
    Listed { name: name.to_string(), is_dir: true }
}

fn enumerate(step: Step) -> String {
    match step {
        Step::Enumerate(d) => d,
        Step::Visit(f) => panic!("visit of {} where an enumeration was due", f),
        Step::Finished => panic!("finished where an enumeration was due"),
    }
}

fn visit(step: Step) -> String {
    match step {
        Step::Visit(f) => f,
        Step::Enumerate(d) => panic!("enumeration of {} where a visit was due", d),
        Step::Finished => panic!("finished where a visit was due"),
    }
}

#[test]
fn new_walker_is_finished() {
    let mut w = Walker::new();
    assert!(w.is_finished());
    assert!(matches!(w.next(), Step::Finished));
    assert!(matches!(w.next(), Step::Finished));
}

#[test]
fn walker_visits_files_in_the_order_listed() {
    let mut w = Walker::new();
    w.supply("/root", vec![file("b"), file("a"), file("c")]);
    assert!(!w.is_finished());
    assert_eq!(visit(w.next()), "/root/b");
    assert_eq!(visit(w.next()), "/root/a");
    assert_eq!(visit(w.next()), "/root/c");
    assert!(matches!(w.next(), Step::Finished));
    assert!(w.is_finished());
}

#[test]
fn walker_goes_depth_first() {
    let mut w = Walker::new();
    w.supply("/r", vec![file("a"), dir("d"), file("z")]);
    assert_eq!(visit(w.next()), "/r/a");
    assert_eq!(enumerate(w.next()), "/r/d");
    w.supply("/r/d", vec![file("x"), dir("e"), file("y")]);
    assert_eq!(visit(w.next()), "/r/d/x");
    assert_eq!(enumerate(w.next()), "/r/d/e");
    w.supply("/r/d/e", vec![file("deep")]);
    assert_eq!(visit(w.next()), "/r/d/e/deep");
    assert_eq!(visit(w.next()), "/r/d/y");
    assert_eq!(visit(w.next()), "/r/z");
    assert!(matches!(w.next(), Step::Finished));
}

#[test]
fn walker_passes_an_empty_directory() {
    let mut w = Walker::new();
    w.supply("/r", vec![dir("empty"), file("f")]);
    assert_eq!(enumerate(w.next()), "/r/empty");
    w.supply("/r/empty", Vec::new());
    assert_eq!(visit(w.next()), "/r/f");
    assert!(matches!(w.next(), Step::Finished));
}

#[test]
fn walker_goes_on_when_a_directory_is_not_supplied() {
    let mut w = Walker::new();
    w.supply("/r", vec![dir("gone"), file("f")]);
    assert_eq!(enumerate(w.next()), "/r/gone");
    assert_eq!(visit(w.next()), "/r/f");
    assert!(matches!(w.next(), Step::Finished));
}

#[test]
fn walker_over_a_root_enumerates_it_first() {
    let mut w = Walker::over("/r");
    assert!(!w.is_finished());
    assert_eq!(enumerate(w.next()), "/r");
    w.supply("/r", vec![file("f")]);
    assert_eq!(visit(w.next()), "/r/f");
    assert!(matches!(w.next(), Step::Finished));
}

#[test]
fn walker_over_a_root_that_is_not_supplied_visits_nothing() {
    let mut w = Walker::over("/absent");
    assert_eq!(enumerate(w.next()), "/absent");
    assert!(matches!(w.next(), Step::Finished));
    assert!(w.is_finished());
}
