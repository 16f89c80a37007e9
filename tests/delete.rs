use trash::delete::{DeleteAction, Deleter, DELETE_FLAGS};
use trash::error::{Error, Operation};
use trash::event::Event;

const E_FAIL: i32 = 0x80004005u32 as i32;

fn wide(s: &str) -> Vec<u16> {
    s.encode_utf16().collect()
}

/// A file-operation service that records what it was asked to do.
struct FakeOperation {
    fail_resolve_at: Option<usize>,
    creates: usize,
    flags: Vec<u32>,
    resolved: Vec<Vec<u16>>,
    added: usize,
    performs: usize,
}

impl FakeOperation {
    fn new() -> FakeOperation {
        FakeOperation { fail_resolve_at: None, creates: 0, flags: Vec::new(), resolved: Vec::new(), added: 0, performs: 0 }
    }

    fn answer(&mut self, action: &DeleteAction) -> Event {
        match action {
            DeleteAction::CreateOperation => {
                self.creates += 1;
                Event::Status(0)
            }
            DeleteAction::SetOperationFlags(flags) => {
                self.flags.push(*flags);
                Event::Status(0)
            }
            DeleteAction::CreateItem(name) => {
                let index = self.resolved.len();
                self.resolved.push(name.clone());
                if self.fail_resolve_at == Some(index) {
                    Event::Status(E_FAIL)
                } else {
                    Event::Status(0)
                }
            }
            DeleteAction::DeleteItem => {
                self.added += 1;
                Event::Status(0)
            }
            DeleteAction::PerformOperations => {
                self.performs += 1;
                Event::Status(0)
            }
            DeleteAction::Finish(_) => panic!("no answer to a finished delete"),
        }
    }
}

fn run(fake: &mut FakeOperation, paths: Vec<Vec<u16>>) -> Result<(), Error> {
    let (mut deleter, mut action) = Deleter::start(paths);
    loop {
        if let DeleteAction::Finish(result) = action {
            return result;
        }
        let event = fake.answer(&action);
        assert!(deleter.accepts(&event));
        action = deleter.step(event);
    }
}

fn nul_terminated(s: &str) -> Vec<u16> {
    let mut v = wide(s);
    v.push(0);
    v
}

#[test]
fn three_paths_make_one_batch() {
    let mut fake = FakeOperation::new();
    let paths = vec![wide("C:\\a.txt"), wide("\\\\?\\C:\\b.txt"), wide("C:\\dir\\c.txt")];
    assert_eq!(run(&mut fake, paths), Ok(()));
    assert_eq!(fake.creates, 1);
    assert_eq!(fake.flags, vec![DELETE_FLAGS]);
    assert_eq!(
        fake.resolved,
        vec![nul_terminated("C:\\a.txt"), nul_terminated("C:\\b.txt"), nul_terminated("C:\\dir\\c.txt")]
    );
    assert_eq!(fake.added, 3);
    assert_eq!(fake.performs, 1);
}

#[test]
fn failed_resolution_never_performs() {
    let mut fake = FakeOperation::new();
    fake.fail_resolve_at = Some(1);
    let paths = vec![wide("C:\\a.txt"), wide("C:\\missing.txt"), wide("C:\\c.txt")];
    assert_eq!(
        run(&mut fake, paths),
        Err(Error::Platform { operation: Operation::SHCreateItemFromParsingName, status: E_FAIL })
    );
    assert_eq!(fake.resolved.len(), 2);
    assert_eq!(fake.added, 1);
    assert_eq!(fake.performs, 0);
}

#[test]
fn no_paths_still_performs_once() {
    let mut fake = FakeOperation::new();
    assert_eq!(run(&mut fake, Vec::new()), Ok(()));
    assert_eq!(fake.resolved.len(), 0);
    assert_eq!(fake.performs, 1);
}

#[test]
fn delete_flags_are_silent_and_undoable() {
    assert_eq!(DELETE_FLAGS, 0x4654);
}

#[test]
fn each_failing_call_is_named() {
    let (mut d, _) = Deleter::start(vec![wide("C:\\a.txt")]);
    assert_eq!(
        d.step(Event::Status(E_FAIL)),
        DeleteAction::Finish(Err(Error::Platform { operation: Operation::CoCreateInstance, status: E_FAIL }))
    );
    let (mut d, _) = Deleter::start(vec![wide("C:\\a.txt")]);
    d.step(Event::Status(0));
    assert_eq!(
        d.step(Event::Status(E_FAIL)),
        DeleteAction::Finish(Err(Error::Platform { operation: Operation::SetOperationFlags, status: E_FAIL }))
    );
    let (mut d, _) = Deleter::start(vec![wide("C:\\a.txt")]);
    d.step(Event::Status(0));
    assert_eq!(d.step(Event::Status(0)), DeleteAction::CreateItem(nul_terminated("C:\\a.txt")));
    assert_eq!(d.step(Event::Status(0)), DeleteAction::DeleteItem);
    assert_eq!(
        d.step(Event::Status(E_FAIL)),
        DeleteAction::Finish(Err(Error::Platform { operation: Operation::DeleteItem, status: E_FAIL }))
    );
    let (mut d, _) = Deleter::start(vec![wide("C:\\a.txt")]);
    d.step(Event::Status(0));
    d.step(Event::Status(0));
    d.step(Event::Status(0));
    assert_eq!(d.step(Event::Status(0)), DeleteAction::PerformOperations);
    assert_eq!(
        d.step(Event::Status(E_FAIL)),
        DeleteAction::Finish(Err(Error::Platform { operation: Operation::PerformOperations, status: E_FAIL }))
    );
    assert!(!d.accepts(&Event::Status(0)));
}
