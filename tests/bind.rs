use trash::bind::{BindAction, Binder};
use trash::error::{Error, Operation};
use trash::event::Event;

const E_FAIL: i32 = 0x80004005u32 as i32;

#[test]
fn non_root_location_is_bound_and_freed() {
    let (mut b, first) = Binder::start();
    assert_eq!(first, BindAction::GetSpecialFolderLocation);
    assert_eq!(b.step(Event::Located { status: 0, empty: false }), BindAction::GetDesktopFolder);
    assert_eq!(b.step(Event::Output { status: 0, present: true }), BindAction::BindToObject);
    assert_eq!(b.step(Event::Status(0)), BindAction::FreeLocation);
    assert_eq!(b.step(Event::Released), BindAction::Finish(Ok(())));
}

#[test]
fn root_location_is_queried_not_bound() {
    let (mut b, _) = Binder::start();
    b.step(Event::Located { status: 0, empty: true });
    assert_eq!(b.step(Event::Output { status: 0, present: true }), BindAction::QueryInterface);
    assert_eq!(b.step(Event::Status(E_FAIL)), BindAction::FreeLocation);
    assert_eq!(
        b.step(Event::Released),
        BindAction::Finish(Err(Error::Platform { operation: Operation::QueryInterface, status: E_FAIL }))
    );
}

#[test]
fn failed_location_holds_nothing() {
    let (mut b, _) = Binder::start();
    assert_eq!(
        b.step(Event::Located { status: E_FAIL, empty: false }),
        BindAction::Finish(Err(Error::Platform { operation: Operation::SHGetSpecialFolderLocation, status: E_FAIL }))
    );
    assert!(!b.accepts(&Event::Released));
}

#[test]
fn missing_desktop_frees_the_location() {
    let (mut b, _) = Binder::start();
    b.step(Event::Located { status: 0, empty: false });
    assert_eq!(b.step(Event::Output { status: 0, present: false }), BindAction::FreeLocation);
    assert_eq!(
        b.step(Event::Released),
        BindAction::Finish(Err(Error::Platform { operation: Operation::SHGetDesktopFolder, status: 0 }))
    );
}

#[test]
fn failed_bind_frees_the_location() {
    let (mut b, _) = Binder::start();
    b.step(Event::Located { status: 0, empty: false });
    b.step(Event::Output { status: 0, present: true });
    assert_eq!(b.step(Event::Status(E_FAIL)), BindAction::FreeLocation);
    assert_eq!(
        b.step(Event::Released),
        BindAction::Finish(Err(Error::Platform { operation: Operation::BindToObject, status: E_FAIL }))
    );
}
