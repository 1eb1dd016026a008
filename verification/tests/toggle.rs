use nix::errno::Errno;
use serialport_low_latency::flags::UpdateAction;
use serialport_low_latency::serial::SerialStruct;
use serialport_low_latency::toggle::{Event, Request, State, Toggle};

fn read() -> SerialStruct {
    SerialStruct { flags: 0x0041, baud_base: 460800, line: 2, ..SerialStruct::zeroed() }
}

#[test]
fn a_new_toggle_asks_for_a_read() {
    let toggle = Toggle::new(UpdateAction::Enable);
    assert_eq!(toggle.state, State::Unread);
    assert_eq!(toggle.action, UpdateAction::Enable);
    assert_eq!(toggle.request(), Request::GetSerial);
}

#[test]
fn a_successful_read_asks_for_a_write_of_the_rewritten_structure() {
    let toggle = Toggle::new(UpdateAction::Enable).handle(Event::GetReturned(Ok(read())));
    let rewritten = SerialStruct { flags: 0x2041, ..read() };
    assert_eq!(toggle.state, State::Modified(rewritten));
    assert_eq!(toggle.request(), Request::SetSerial(rewritten));

    let with_bit = SerialStruct { flags: 0x2041, ..read() };
    let toggle = Toggle::new(UpdateAction::Disable).handle(Event::GetReturned(Ok(with_bit)));
    assert_eq!(toggle.request(), Request::SetSerial(read()));
}

#[test]
fn a_successful_write_ends_with_success() {
    let toggle = Toggle::new(UpdateAction::Enable)
        .handle(Event::GetReturned(Ok(read())))
        .handle(Event::SetReturned(Ok(())));
    assert_eq!(toggle.state, State::Written);
    assert_eq!(toggle.request(), Request::Finish(Ok(())));
}

#[test]
fn a_failed_read_ends_with_its_error_and_asks_for_no_write() {
    for error in [Errno::EBADF, Errno::ENOTTY, Errno::EIO, Errno::EACCES] {
        let toggle = Toggle::new(UpdateAction::Enable).handle(Event::GetReturned(Err(error)));
        assert_eq!(toggle.state, State::ReadFailed(error));
        assert_eq!(toggle.request(), Request::Finish(Err(error)));

        let later = toggle
            .handle(Event::GetReturned(Ok(read())))
            .handle(Event::SetReturned(Ok(())))
            .handle(Event::SetReturned(Err(Errno::EIO)));
        assert_eq!(later, toggle);
        assert_eq!(later.request(), Request::Finish(Err(error)));
    }
}

#[test]
fn a_failed_write_ends_with_its_error() {
    for error in [Errno::EPERM, Errno::EINVAL, Errno::EIO] {
        let toggle = Toggle::new(UpdateAction::Disable)
            .handle(Event::GetReturned(Ok(read())))
            .handle(Event::SetReturned(Err(error)));
        assert_eq!(toggle.state, State::WriteFailed(error));
        assert_eq!(toggle.request(), Request::Finish(Err(error)));

        let later = toggle.handle(Event::SetReturned(Ok(())));
        assert_eq!(later, toggle);
    }
}

#[test]
fn an_event_that_answers_no_request_is_ignored() {
    let unread = Toggle::new(UpdateAction::Enable);
    assert_eq!(unread.handle(Event::SetReturned(Ok(()))), unread);
    assert_eq!(unread.handle(Event::SetReturned(Err(Errno::EIO))), unread);

    let modified = unread.handle(Event::GetReturned(Ok(read())));
    assert_eq!(modified.handle(Event::GetReturned(Ok(SerialStruct::zeroed()))), modified);
    assert_eq!(modified.handle(Event::GetReturned(Err(Errno::EIO))), modified);

    let written = modified.handle(Event::SetReturned(Ok(())));
    assert_eq!(written.handle(Event::GetReturned(Ok(read()))), written);
    assert_eq!(written.handle(Event::SetReturned(Err(Errno::EIO))), written);
}

#[test]
fn the_action_stays_through_the_operation() {
    let toggle = Toggle::new(UpdateAction::Disable)
        .handle(Event::GetReturned(Ok(read())))
        .handle(Event::SetReturned(Ok(())));
    assert_eq!(toggle.action, UpdateAction::Disable);
}
